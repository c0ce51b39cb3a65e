//! Symbols and source spans.

use vstd::prelude::*;
use vstd::string::*;

pub mod sym;

verus! {

/// An interned string: the index of the string in the session's symbol table.
pub type Symbol = u32;

/// A span of source text, given by the byte positions of its first and one-past-last characters.
#[derive(Clone, Copy, Debug, PartialEq, Eq, Structural)]
pub struct Span {
    pub lo: u32,
    pub hi: u32,
}

impl Span {
    /// Creates a span from its two byte positions.
    pub fn new(lo: u32, hi: u32) -> (s: Span)
        ensures
            s.lo == lo,
            s.hi == hi,
    {
        Span { lo, hi }
    }

    /// The span that covers no source text.
    pub fn dummy() -> (s: Span)
        ensures
            s.lo == 0,
            s.hi == 0,
    {
        Span { lo: 0, hi: 0 }
    }
}

/// The symbol table of a session: the strings that have been interned, each at the index that
/// is its symbol.
pub struct Interner {
    strings: Vec<String>,
}

impl View for Interner {
    type V = Seq<Seq<char>>;

    closed spec fn view(&self) -> Seq<Seq<char>> {
        self.strings@.map_values(|s: String| s@)
    }
}

/// The index of the first occurrence of the string in the table, if any.
pub open spec fn first_index(table: Seq<Seq<char>>, s: Seq<char>) -> Option<int> {
    if exists|i: int| 0 <= i < table.len() && table[i] == s {
        Some(choose|i: int| 0 <= i < table.len() && table[i] == s && forall|j: int| 0 <= j < i ==> table[j] != s)
    } else {
        None
    }
}

impl Interner {
    /// Creates the symbol table of a session, holding the predefined symbols at their indices.
    pub fn new() -> (t: Interner)
        ensures
            t@ == sym::predefined_names(),
    {
        let names = sym::predefined();
        let mut strings: Vec<String> = Vec::new();
        let mut i: usize = 0;
        while i < names.len()
            invariant
                i <= names@.len(),
                names@.len() == sym::predefined_names().len(),
                forall|k: int| 0 <= k < names@.len() ==> (#[trigger] names@[k])@ == sym::predefined_names()[k],
                strings@.len() == i,
                forall|k: int| 0 <= k < i ==> (#[trigger] strings@[k])@ == sym::predefined_names()[k],
            decreases names.len() - i,
        {
            strings.push(String::from_str(names[i]));
            i = i + 1;
        }
        let t = Interner { strings };
        assert(t@ =~= sym::predefined_names());
        t
    }

    /// Returns the number of interned strings.
    pub fn len(&self) -> (n: usize)
        ensures
            n == self@.len(),
    {
        self.strings.len()
    }

    /// Returns the symbol of the string, interning it first if it has not been.
    pub fn intern(&mut self, s: &str) -> (r: Symbol)
        requires
            old(self)@.len() < u32::MAX,
        ensures
            r < final(self)@.len(),
            final(self)@[r as int] == s@,
            first_index(old(self)@, s@) matches Some(i) ==> r == i && final(self)@ == old(self)@,
            first_index(old(self)@, s@) is None ==> r == old(self)@.len() && final(self)@ == old(self)@.push(s@),
    {
        let owned = String::from_str(s);
        let mut i: usize = 0;
        while i < self.strings.len()
            invariant
                i <= self.strings@.len(),
                owned@ == s@,
                *self == *old(self),
                self.strings@.len() < u32::MAX,
                forall|j: int| 0 <= j < i ==> (#[trigger] self.strings@[j])@ != s@,
            decreases self.strings.len() - i,
        {
            if self.strings[i] == owned {
                assert(self@[i as int] == s@);
                assert(forall|j: int| 0 <= j < i ==> self@[j] != s@);
                assert(first_index(self@, s@) == Some(i as int));
                return i as u32;
            }
            i = i + 1;
        }
        assert(forall|j: int| 0 <= j < self@.len() ==> self@[j] != s@);
        let r = self.strings.len() as u32;
        self.strings.push(owned);
        assert(self@ =~= old(self)@.push(s@));
        r
    }

    /// Returns the string of an interned symbol.
    pub fn get(&self, symbol: Symbol) -> (s: &str)
        requires
            symbol < self@.len(),
        ensures
            s@ == self@[symbol as int],
    {
        self.strings[symbol as usize].as_str()
    }
}

/// Interning a string that was just interned gives back the same symbol and leaves the table as
/// it is: `table` is the table before the first interning, and `after` and `symbol` what that
/// interning gave.
pub proof fn law_intern_twice(table: Seq<Seq<char>>, s: Seq<char>, after: Seq<Seq<char>>, symbol: int)
    requires
        first_index(table, s) matches Some(i) ==> symbol == i && after == table,
        first_index(table, s) is None ==> symbol == table.len() && after == table.push(s),
    ensures
        first_index(after, s) == Some(symbol),
{
    if first_index(table, s) is None {
        assert(after[table.len() as int] == s);
        let i = choose|i: int| 0 <= i < after.len() && after[i] == s && forall|j: int| 0 <= j < i ==> after[j] != s;
        if i < table.len() {
            assert(table[i] == s);
        }
        assert(forall|j: int| 0 <= j < table.len() ==> after[j] == table[j]);
    }
}

/// The decimal digit of a number below ten.
pub open spec fn digit_char(d: nat) -> char {
    if d == 0 { '0' } else if d == 1 { '1' } else if d == 2 { '2' } else if d == 3 { '3' } else if d == 4 { '4' }
    else if d == 5 { '5' } else if d == 6 { '6' } else if d == 7 { '7' } else if d == 8 { '8' } else { '9' }
}

/// The decimal representation of a number, without leading zeros.
pub open spec fn decimal(n: nat) -> Seq<char>
    decreases n,
{
    if n < 10 {
        seq![digit_char(n)]
    } else {
        decimal(n / 10).push(digit_char(n % 10))
    }
}

fn digit_str(d: usize) -> (s: &'static str)
    requires
        d < 10,
    ensures
        s@ == seq![digit_char(d as nat)],
{
    proof {
        reveal_strlit("0");
        reveal_strlit("1");
        reveal_strlit("2");
        reveal_strlit("3");
        reveal_strlit("4");
        reveal_strlit("5");
        reveal_strlit("6");
        reveal_strlit("7");
        reveal_strlit("8");
        reveal_strlit("9");
    }
    if d == 0 { "0" } else if d == 1 { "1" } else if d == 2 { "2" } else if d == 3 { "3" } else if d == 4 { "4" }
    else if d == 5 { "5" } else if d == 6 { "6" } else if d == 7 { "7" } else if d == 8 { "8" } else { "9" }
}

/// Returns the decimal representation of a number.
pub fn to_decimal(n: usize) -> (s: String)
    ensures
        s@ == decimal(n as nat),
    decreases n,
{
    if n < 10 {
        String::from_str(digit_str(n))
    } else {
        let mut s = to_decimal(n / 10);
        s.append(digit_str(n % 10));
        s
    }
}

} // verus!
