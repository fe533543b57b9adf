//! Per-domain protocol registries: each encapsulation domain owns one
//! registry mapping a protocol identifier to the decoder that handles it.
//! Identifiers are unique only within their domain; registration never
//! overwrites an existing entry.

use vstd::prelude::*;

use crate::Error;
use crate::types::{ETHERTYPE_IP, ETHERTYPE_IP6};

verus! {

/// Names one built-in protocol decoder. A registry entry resolves a wire
/// identifier to the kind of layer that decodes what follows.
#[derive(PartialEq, Eq, Clone, Copy, Debug)]
pub enum LayerKind {
    Ethernet,
    IPv4,
    IPv6,
}

/// One registry entry: a protocol identifier bound to the decoder kind it
/// selects.
#[derive(PartialEq, Eq, Clone, Copy, Debug)]
pub struct RegEntry {
    pub id: u16,
    pub kind: LayerKind,
}

/// What a registry resolves an identifier to: the first entry carrying it,
/// or nothing when the identifier is unknown to the domain.
pub open spec fn lookup_spec(s: Seq<RegEntry>, id: u16) -> Option<LayerKind>
    decreases s.len(),
{
    if s.len() == 0 {
        None
    } else if s[0].id == id {
        Some(s[0].kind)
    } else {
        lookup_spec(s.drop_first(), id)
    }
}

/// What a registration does: refused when the identifier is already
/// claimed, otherwise the entry is appended and nothing else changes.
pub open spec fn register_spec(s: Seq<RegEntry>, id: u16, kind: LayerKind) -> Result<
    Seq<RegEntry>,
    Error,
> {
    if lookup_spec(s, id) is Some {
        Err(Error::RegisterError)
    } else {
        Ok(s.push(RegEntry { id, kind }))
    }
}

/// The registry for one encapsulation domain. Its view is the sequence of
/// entries in registration order; lookups resolve to the first entry with
/// a matching identifier, and registration refuses duplicates, so at most
/// one entry per identifier is ever live.
pub struct Registry {
    entries: Vec<RegEntry>,
}

impl View for Registry {
    type V = Seq<RegEntry>;

    closed spec fn view(&self) -> Seq<RegEntry> {
        self.entries@
    }
}

impl Registry {
    /// A fresh registry with no registered protocols.
    pub fn new() -> (r: Registry)
        ensures
            r@.len() == 0,
    {
        Registry { entries: Vec::new() }
    }

    /// Resolves an identifier to its registered decoder kind, or `None`
    /// when the identifier is unknown to this domain.
    pub fn lookup(&self, id: u16) -> (r: Option<LayerKind>)
        ensures
            r == lookup_spec(self@, id),
    {
        let n = self.entries.len();
        let mut i: usize = 0;
        proof {
            assert(self.entries@.skip(0) =~= self.entries@);
        }
        while i < n
            invariant
                i <= n,
                n == self.entries@.len(),
                lookup_spec(self.entries@.skip(i as int), id) == lookup_spec(self.entries@, id),
            decreases n - i,
        {
            proof {
                assert(self.entries@.skip(i as int)[0] == self.entries@[i as int]);
            }
            if self.entries[i].id == id {
                return Some(self.entries[i].kind);
            }
            proof {
                assert(self.entries@.skip(i as int).drop_first() =~= self.entries@.skip(
                    i as int + 1,
                ));
            }
            i = i + 1;
        }
        proof {
            assert(self.entries@.skip(i as int) =~= Seq::<RegEntry>::empty());
        }
        None
    }

    /// Inserts a new entry. Fails with `RegisterError`, leaving the
    /// registry unchanged, when the identifier is already present; never
    /// overwrites.
    pub fn register(&mut self, id: u16, kind: LayerKind) -> (r: Result<(), Error>)
        ensures
            match register_spec(old(self)@, id, kind) {
                Ok(s) => r is Ok && final(self)@ == s,
                Err(e) => r == Err::<(), Error>(e) && final(self)@ == old(self)@,
            },
    {
        if self.lookup(id).is_some() {
            return Err(Error::RegisterError);
        }
        self.entries.push(RegEntry { id, kind });
        Ok(())
    }
}

/// The registries of every encapsulation domain the engine consults,
/// constructed once and handed to the dissection entry point. The table
/// currently carries the network-layer domain keyed by ethertype.
pub struct RegistryTable {
    pub ethertypes: Registry,
}

impl View for RegistryTable {
    type V = Seq<RegEntry>;

    open spec fn view(&self) -> Seq<RegEntry> {
        self.ethertypes@
    }
}

impl RegistryTable {
    /// A table of fresh, empty registries.
    pub fn new() -> (r: RegistryTable)
        ensures
            r@.len() == 0,
    {
        RegistryTable { ethertypes: Registry::new() }
    }
}

/// What the default bootstrap leaves in the ethertype registry: IPv4 then
/// IPv6, stopping at the first refusal.
pub open spec fn register_defaults_spec(s: Seq<RegEntry>) -> Result<Seq<RegEntry>, Error> {
    match register_spec(s, ETHERTYPE_IP, LayerKind::IPv4) {
        Err(e) => Err(e),
        Ok(s1) => register_spec(s1, ETHERTYPE_IP6, LayerKind::IPv6),
    }
}

/// Well-formedness of one registry domain: at most one entry per
/// identifier.
pub open spec fn unique_ids(s: Seq<RegEntry>) -> bool {
    forall|i: int, j: int| 0 <= i < j < s.len() ==> s[i].id != s[j].id
}

/// An identifier that a lookup cannot resolve occurs in no entry.
pub proof fn lemma_lookup_none_absent(s: Seq<RegEntry>, id: u16)
    requires
        lookup_spec(s, id) is None,
    ensures
        forall|i: int| 0 <= i < s.len() ==> s[i].id != id,
    decreases s.len(),
{
    if s.len() > 0 {
        lemma_lookup_none_absent(s.drop_first(), id);
        assert forall|i: int| 0 <= i < s.len() implies s[i].id != id by {
            if i > 0 {
                assert(s.drop_first()[i - 1] == s[i]);
            }
        }
    }
}

/// Registration preserves well-formedness: a registry never comes to hold
/// two entries with one identifier.
pub proof fn lemma_register_preserves_unique(s: Seq<RegEntry>, id: u16, kind: LayerKind)
    requires
        unique_ids(s),
        register_spec(s, id, kind) is Ok,
    ensures
        unique_ids(register_spec(s, id, kind).unwrap()),
{
    lemma_lookup_none_absent(s, id);
    let s2 = register_spec(s, id, kind).unwrap();
    assert forall|i: int, j: int| 0 <= i < j < s2.len() implies s2[i].id != s2[j].id by {
        if j < s.len() {
            assert(s[i].id != s[j].id);
        }
    }
}

/// How a lookup reads a registry extended by one entry: earlier entries
/// win, and the new entry answers only for its own identifier.
pub proof fn lemma_lookup_after_push(s: Seq<RegEntry>, e: RegEntry, id: u16)
    ensures
        lookup_spec(s.push(e), id) == (if lookup_spec(s, id) is Some {
            lookup_spec(s, id)
        } else if e.id == id {
            Some(e.kind)
        } else {
            None
        }),
    decreases s.len(),
{
    if s.len() == 0 {
        assert(s.push(e)[0] == e);
        assert(s.push(e).drop_first() =~= Seq::<RegEntry>::empty());
        assert(lookup_spec(s.push(e).drop_first(), id) is None);
        assert(lookup_spec(s, id) is None);
    } else {
        assert(s.push(e)[0] == s[0]);
        assert(s.push(e).drop_first() =~= s.drop_first().push(e));
        lemma_lookup_after_push(s.drop_first(), e, id);
        assert(lookup_spec(s.push(e), id) == (if s[0].id == id {
            Some(s[0].kind)
        } else {
            lookup_spec(s.drop_first().push(e), id)
        }));
        assert(lookup_spec(s, id) == (if s[0].id == id {
            Some(s[0].kind)
        } else {
            lookup_spec(s.drop_first(), id)
        }));
    }
}

/// Registration exclusivity: once an identifier is registered, a second
/// registration of the same identifier in the same domain is refused, and
/// the registry keeps resolving the identifier to the first entry.
pub proof fn lemma_register_exclusive(s: Seq<RegEntry>, id: u16, k1: LayerKind, k2: LayerKind)
    requires
        lookup_spec(s, id) is None,
    ensures
        register_spec(s, id, k1) is Ok,
        lookup_spec(register_spec(s, id, k1).unwrap(), id) == Some(k1),
        register_spec(register_spec(s, id, k1).unwrap(), id, k2) == Err::<Seq<RegEntry>, Error>(
            Error::RegisterError,
        ),
{
    lemma_lookup_after_push(s, RegEntry { id, kind: k1 }, id);
}

} // verus!
