use vstd::prelude::*;

verus! {

/// A set of resource kinds that the cache processes, held as bits: guilds
/// (1), members (2) and presences (4).
#[derive(Clone, Copy, Debug, PartialEq, Eq, Structural)]
pub struct ResourceType {
    bits: u8,
}

impl View for ResourceType {
    type V = u8;

    closed spec fn view(&self) -> u8 {
        self.bits
    }
}

impl ResourceType {
    pub fn guild() -> (r: ResourceType)
        ensures
            r@ == 1,
    {
        ResourceType { bits: 1 }
    }

    pub fn member() -> (r: ResourceType)
        ensures
            r@ == 2,
    {
        ResourceType { bits: 2 }
    }

    pub fn presence() -> (r: ResourceType)
        ensures
            r@ == 4,
    {
        ResourceType { bits: 4 }
    }

    /// Every resource kind.
    pub fn all() -> (r: ResourceType)
        ensures
            r@ == 7,
    {
        ResourceType { bits: 7 }
    }

    /// No resource kind.
    pub fn empty() -> (r: ResourceType)
        ensures
            r@ == 0,
    {
        ResourceType { bits: 0 }
    }

    /// The set with the known kinds among `bits`; other bits are dropped.
    pub fn from_bits_truncate(bits: u8) -> (r: ResourceType)
        ensures
            r@ == bits & 7,
    {
        ResourceType { bits: bits & 7 }
    }

    pub fn bits(&self) -> (r: u8)
        ensures
            r == self@,
    {
        self.bits
    }

    /// Whether every kind in `other` is in this set.
    pub fn contains(&self, other: ResourceType) -> (r: bool)
        ensures
            r == (self@ & other@ == other@),
    {
        self.bits & other.bits == other.bits
    }

    /// Adds the kinds in `other`.
    pub fn insert(&mut self, other: ResourceType)
        ensures
            final(self)@ == old(self)@ | other@,
    {
        self.bits = self.bits | other.bits;
    }

    /// Removes the kinds in `other`.
    pub fn remove(&mut self, other: ResourceType)
        ensures
            final(self)@ == old(self)@ & !other@,
    {
        self.bits = self.bits & !other.bits;
    }
}

/// Configuration of the in-memory cache: which resources it processes.
#[derive(Clone, Debug, PartialEq, Eq, Structural)]
pub struct Config {
    resource_types: ResourceType,
}

impl View for Config {
    type V = u8;

    closed spec fn view(&self) -> u8 {
        self.resource_types@
    }
}

impl Config {
    /// The configuration that processes every resource kind.
    pub fn new() -> (r: Config)
        ensures
            r@ == 7,
    {
        Config { resource_types: ResourceType::all() }
    }

    /// A copy of the enabled resource types.
    pub fn resource_types(&self) -> (r: ResourceType)
        ensures
            r@ == self@,
    {
        self.resource_types
    }

    /// The enabled resource types, to change in place.
    pub fn resource_types_mut(&mut self) -> (r: &mut ResourceType)
        ensures
            (*r)@ == old(self)@,
            final(self)@ == (*final(r))@,
    {
        &mut self.resource_types
    }
}

impl Default for Config {
    fn default() -> (r: Config)
        ensures
            r@ == 7,
    {
        Config::new()
    }
}

} // verus!
