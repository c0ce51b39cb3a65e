//! The dependencies of a program on other programs, and where to retrieve them from.

use vstd::prelude::*;
use vstd::utf8::*;

use crate::span::{Interner, Symbol};

verus! {

/// Where a dependency is retrieved from.
#[derive(Clone, Copy, Debug, PartialEq, Eq, Structural)]
pub enum Location {
    Local,
    Network,
}

/// The network that a dependency is retrieved from.
#[derive(Clone, Copy, Debug, PartialEq, Eq, Structural)]
pub enum Network {
    Mainnet,
    Testnet,
}

/// Information required to retrieve an external program.
#[derive(Debug)]
pub struct Dependency {
    name: String,
    location: Location,
    network: Option<Network>,
    endpoint: Option<String>,
    path: Option<String>,
}

impl Dependency {
    /// The name of the program.
    pub closed spec fn spec_name(&self) -> String {
        self.name
    }

    /// Where the program is retrieved from.
    pub closed spec fn spec_location(&self) -> Location {
        self.location
    }

    /// The network that the program is retrieved from, if any.
    pub closed spec fn spec_network(&self) -> Option<Network> {
        self.network
    }

    /// The endpoint that the program is retrieved from, if any.
    pub closed spec fn spec_endpoint(&self) -> Option<String> {
        self.endpoint
    }

    /// The local path of the program, if any.
    pub closed spec fn spec_path(&self) -> Option<String> {
        self.path
    }

    /// The dependency made of the given name, location, network, endpoint and path, each kept
    /// as given.
    pub closed spec fn spec_new(
        name: String,
        location: Location,
        network: Option<Network>,
        endpoint: Option<String>,
        path: Option<String>,
    ) -> Self {
        Self { name, location, network, endpoint, path }
    }

    /// Creates a dependency.
    pub fn new(
        name: String,
        location: Location,
        network: Option<Network>,
        endpoint: Option<String>,
        path: Option<String>,
    ) -> (d: Self)
        ensures
            d == Self::spec_new(name, location, network, endpoint, path),
            d.spec_name() == name,
            d.spec_location() == location,
            d.spec_network() == network,
            d.spec_endpoint() == endpoint,
            d.spec_path() == path,
    {
        Self { name, location, network, endpoint, path }
    }

    /// Two dependencies are created equal exactly when they are created from equal names,
    /// locations, networks, endpoints and paths: nothing given is altered, defaulted or dropped.
    pub proof fn law_new_injective(
        name1: String,
        location1: Location,
        network1: Option<Network>,
        endpoint1: Option<String>,
        path1: Option<String>,
        name2: String,
        location2: Location,
        network2: Option<Network>,
        endpoint2: Option<String>,
        path2: Option<String>,
    )
        ensures
            (Self::spec_new(name1, location1, network1, endpoint1, path1) == Self::spec_new(
                name2,
                location2,
                network2,
                endpoint2,
                path2,
            )) <==> (name1 == name2 && location1 == location2 && network1 == network2 && endpoint1
                == endpoint2 && path1 == path2),
    {
    }

    /// Returns the name of the program.
    pub fn name(&self) -> (n: &String)
        ensures
            *n == self.spec_name(),
    {
        &self.name
    }

    /// Returns where the program is retrieved from.
    pub fn location(&self) -> (l: &Location)
        ensures
            *l == self.spec_location(),
    {
        &self.location
    }

    /// Returns the network that the program is retrieved from, if any.
    pub fn network(&self) -> (n: &Option<Network>)
        ensures
            *n == self.spec_network(),
    {
        &self.network
    }

    /// Returns the endpoint that the program is retrieved from, if any.
    pub fn endpoint(&self) -> (e: &Option<String>)
        ensures
            *e == self.spec_endpoint(),
    {
        &self.endpoint
    }

    /// Returns the local path of the program, if any.
    pub fn path(&self) -> (p: &Option<String>)
        ensures
            *p == self.spec_path(),
    {
        &self.path
    }

    /// Returns the symbol of the program: its name without the last five bytes, the `.aleo` of
    /// the file name; that name is interned.
    pub fn to_symbol(&self, interner: &mut Interner) -> (s: Symbol)
        requires
            5 <= encode_utf8(self.spec_name()@).len() <= usize::MAX,
            is_char_boundary(encode_utf8(self.spec_name()@), encode_utf8(self.spec_name()@).len() - 5),
            old(interner)@.len() < u32::MAX,
        ensures
            s < final(interner)@.len(),
            encode_utf8(final(interner)@[s as int]) == encode_utf8(self.spec_name()@).subrange(0, encode_utf8(self.spec_name()@).len() - 5),
            final(interner)@.len() <= old(interner)@.len() + 1,
            final(interner)@.subrange(0, old(interner)@.len() as int) == old(interner)@,
    {
        let name = self.name.as_str();
        assert(name@ == self.name@);
        let (stem, _) = name.split_at(name.len() - 5);
        let s = interner.intern(stem);
        assert(final(interner)@.subrange(0, old(interner)@.len() as int) =~= old(interner)@);
        s
    }
}

} // verus!
