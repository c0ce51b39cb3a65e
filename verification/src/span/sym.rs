//! The predefined symbols: each name below is interned at a fixed index
//! before any source text is read.

#![allow(non_upper_case_globals)]

use vstd::prelude::*;

use crate::span::Symbol;

verus! {

/// The symbol of `main`.
pub const main_name: Symbol = 0;
/// The symbol of `test`.
pub const test: Symbol = 1;
/// The symbol of `Self`.
pub const SelfUpper: Symbol = 2;
/// The symbol of `input`.
pub const input: Symbol = 3;
/// The symbol of `BHP256`.
pub const BHP256: Symbol = 4;
/// The symbol of `BHP512`.
pub const BHP512: Symbol = 5;
/// The symbol of `BHP768`.
pub const BHP768: Symbol = 6;
/// The symbol of `BHP1024`.
pub const BHP1024: Symbol = 7;
/// The symbol of `Pedersen64`.
pub const Pedersen64: Symbol = 8;
/// The symbol of `Pedersen128`.
pub const Pedersen128: Symbol = 9;
/// The symbol of `Poseidon2`.
pub const Poseidon2: Symbol = 10;
/// The symbol of `Poseidon4`.
pub const Poseidon4: Symbol = 11;
/// The symbol of `Poseidon8`.
pub const Poseidon8: Symbol = 12;
/// The symbol of `Mapping`.
pub const Mapping: Symbol = 13;
/// The symbol of `commit_to_address`.
pub const commit_to_address: Symbol = 14;
/// The symbol of `commit_to_field`.
pub const commit_to_field: Symbol = 15;
/// The symbol of `commit_to_group`.
pub const commit_to_group: Symbol = 16;
/// The symbol of `hash_to_address`.
pub const hash_to_address: Symbol = 17;
/// The symbol of `hash_to_field`.
pub const hash_to_field: Symbol = 18;
/// The symbol of `hash_to_group`.
pub const hash_to_group: Symbol = 19;
/// The symbol of `hash_to_i8`.
pub const hash_to_i8: Symbol = 20;
/// The symbol of `hash_to_i16`.
pub const hash_to_i16: Symbol = 21;
/// The symbol of `hash_to_i32`.
pub const hash_to_i32: Symbol = 22;
/// The symbol of `hash_to_i64`.
pub const hash_to_i64: Symbol = 23;
/// The symbol of `hash_to_i128`.
pub const hash_to_i128: Symbol = 24;
/// The symbol of `hash_to_u8`.
pub const hash_to_u8: Symbol = 25;
/// The symbol of `hash_to_u16`.
pub const hash_to_u16: Symbol = 26;
/// The symbol of `hash_to_u32`.
pub const hash_to_u32: Symbol = 27;
/// The symbol of `hash_to_u64`.
pub const hash_to_u64: Symbol = 28;
/// The symbol of `hash_to_u128`.
pub const hash_to_u128: Symbol = 29;
/// The symbol of `hash_to_scalar`.
pub const hash_to_scalar: Symbol = 30;
/// The symbol of `get`.
pub const get: Symbol = 31;
/// The symbol of `get_or_use`.
pub const get_or_use: Symbol = 32;
/// The symbol of `set`.
pub const set: Symbol = 33;
/// The symbol of `dummy`.
pub const dummy: Symbol = 34;
/// The symbol of `aleo`.
pub const aleo: Symbol = 35;

/// The names of the predefined symbols, in the order of their indices.
pub open spec fn predefined_names() -> Seq<Seq<char>> {
    seq![
        "main"@,
        "test"@,
        "Self"@,
        "input"@,
        "BHP256"@,
        "BHP512"@,
        "BHP768"@,
        "BHP1024"@,
        "Pedersen64"@,
        "Pedersen128"@,
        "Poseidon2"@,
        "Poseidon4"@,
        "Poseidon8"@,
        "Mapping"@,
        "commit_to_address"@,
        "commit_to_field"@,
        "commit_to_group"@,
        "hash_to_address"@,
        "hash_to_field"@,
        "hash_to_group"@,
        "hash_to_i8"@,
        "hash_to_i16"@,
        "hash_to_i32"@,
        "hash_to_i64"@,
        "hash_to_i128"@,
        "hash_to_u8"@,
        "hash_to_u16"@,
        "hash_to_u32"@,
        "hash_to_u64"@,
        "hash_to_u128"@,
        "hash_to_scalar"@,
        "get"@,
        "get_or_use"@,
        "set"@,
        "dummy"@,
        "aleo"@,
    ]
}

/// Returns the names of the predefined symbols, in the order of their indices.
pub fn predefined() -> (v: Vec<&'static str>)
    ensures
        v@.len() == predefined_names().len(),
        forall|i: int| 0 <= i < v@.len() ==> (#[trigger] v@[i])@ == predefined_names()[i],
{
    let mut v: Vec<&'static str> = Vec::new();
    v.push("main");
    v.push("test");
    v.push("Self");
    v.push("input");
    v.push("BHP256");
    v.push("BHP512");
    v.push("BHP768");
    v.push("BHP1024");
    v.push("Pedersen64");
    v.push("Pedersen128");
    v.push("Poseidon2");
    v.push("Poseidon4");
    v.push("Poseidon8");
    v.push("Mapping");
    v.push("commit_to_address");
    v.push("commit_to_field");
    v.push("commit_to_group");
    v.push("hash_to_address");
    v.push("hash_to_field");
    v.push("hash_to_group");
    v.push("hash_to_i8");
    v.push("hash_to_i16");
    v.push("hash_to_i32");
    v.push("hash_to_i64");
    v.push("hash_to_i128");
    v.push("hash_to_u8");
    v.push("hash_to_u16");
    v.push("hash_to_u32");
    v.push("hash_to_u64");
    v.push("hash_to_u128");
    v.push("hash_to_scalar");
    v.push("get");
    v.push("get_or_use");
    v.push("set");
    v.push("dummy");
    v.push("aleo");
    v
}

} // verus!
