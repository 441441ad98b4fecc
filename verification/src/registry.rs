//! The client registry: which client serves a capability kind under a logical
//! name. It is filled at startup, sealed, and only read afterwards.

use crate::error::Error;
use vstd::prelude::*;

verus! {

/// A capability kind and a logical name, as texts.
pub type ClientKey = (Seq<char>, Seq<char>);

/// Why a registration was refused.
#[derive(Debug, Clone, Copy, PartialEq, Eq, Structural)]
pub enum RegisterError {
    /// The registry was sealed before the call.
    Sealed,
    /// A client is already registered under the same kind and name.
    Duplicate,
}

/// One registration.
pub struct Entry<C> {
    pub kind: String,
    pub name: String,
    pub client: C,
}

impl<C> Entry<C> {
    /// The key under which this entry is found.
    pub open spec fn key(self) -> ClientKey {
        (self.kind@, self.name@)
    }
}

/// The clients of a process, by capability kind and logical name.
pub struct ClientRegistry<C> {
    entries: Vec<Entry<C>>,
    sealed: bool,
}

/// The mapping that a list of registrations stands for.
pub open spec fn mapping_of<C>(entries: Seq<Entry<C>>) -> Map<ClientKey, C>
    decreases entries.len(),
{
    if entries.len() == 0 {
        Map::empty()
    } else {
        mapping_of(entries.drop_last()).insert(entries.last().key(), entries.last().client)
    }
}

/// No two registrations share a key.
pub open spec fn distinct_keys<C>(entries: Seq<Entry<C>>) -> bool {
    forall|i: int, j: int|
        0 <= i < j < entries.len() ==> (#[trigger] entries[i]).key() != (#[trigger] entries[j]).key()
}

/// A key is in the mapping exactly if some registration bears it.
pub proof fn lemma_mapping_domain<C>(entries: Seq<Entry<C>>, key: ClientKey)
    ensures
        mapping_of(entries).contains_key(key) <==> exists|i: int|
            0 <= i < entries.len() && (#[trigger] entries[i]).key() == key,
    decreases entries.len(),
{
    if entries.len() > 0 {
        let front = entries.drop_last();
        lemma_mapping_domain(front, key);
        if mapping_of(entries).contains_key(key) {
            if entries.last().key() == key {
                assert(entries[entries.len() - 1].key() == key);
            } else {
                let i = choose|i: int| 0 <= i < front.len() && (#[trigger] front[i]).key() == key;
                assert(entries[i].key() == key);
            }
        } else {
            assert forall|i: int| 0 <= i < entries.len() implies (#[trigger] entries[i]).key()
                != key by {
                if i < front.len() {
                    assert(front[i].key() != key);
                }
            }
        }
    }
}

/// Where keys are distinct, each registration's key leads to its own client.
pub proof fn lemma_mapping_value<C>(entries: Seq<Entry<C>>, i: int)
    requires
        distinct_keys(entries),
        0 <= i < entries.len(),
    ensures
        mapping_of(entries).contains_key(entries[i].key()),
        mapping_of(entries)[entries[i].key()] == entries[i].client,
    decreases entries.len(),
{
    let front = entries.drop_last();
    if i < entries.len() - 1 {
        assert(front[i] == entries[i]);
        assert(entries[i].key() != entries[entries.len() - 1].key());
        assert(distinct_keys(front)) by {
            assert forall|a: int, b: int| 0 <= a < b < front.len() implies (#[trigger] front[a]).key()
                != (#[trigger] front[b]).key() by {
                assert(front[a] == entries[a]);
                assert(front[b] == entries[b]);
            }
        }
        lemma_mapping_value(front, i);
    }
}

impl<C> ClientRegistry<C> {
    /// The invariant: no two registrations share a key.
    pub closed spec fn wf(&self) -> bool {
        distinct_keys(self.entries@)
    }

    /// The registered clients by kind and name.
    pub closed spec fn clients(&self) -> Map<ClientKey, C> {
        mapping_of(self.entries@)
    }

    /// Whether the registry has been sealed.
    pub closed spec fn sealed(&self) -> bool {
        self.sealed
    }

    /// What a lookup of `(kind, name)` returns: the registered client, or
    /// `NotFound` with that kind and name where none is registered.
    pub open spec fn lookup_outcome(
        &self,
        kind: Seq<char>,
        name: Seq<char>,
        outcome: Result<&C, Error>,
    ) -> bool {
        match outcome {
            Ok(client) => self.clients().contains_key((kind, name)) && *client
                == self.clients()[(kind, name)],
            Err(e) => !self.clients().contains_key((kind, name)) && e.is_not_found(kind, name),
        }
    }

    /// An empty registry that accepts registrations.
    pub fn new() -> (registry: Self)
        ensures
            registry.wf(),
            !registry.sealed(),
            registry.clients() == Map::<ClientKey, C>::empty(),
    {
        ClientRegistry { entries: Vec::new(), sealed: false }
    }

    /// Whether the registry has been sealed.
    pub fn is_sealed(&self) -> (b: bool)
        ensures
            b == self.sealed(),
    {
        self.sealed
    }

    /// The number of registered clients.
    pub fn len(&self) -> (n: usize)
        requires
            self.wf(),
        ensures
            n == self.clients().dom().len(),
            self.clients().dom().finite(),
    {
        proof {
            lemma_mapping_size(self.entries@);
        }
        self.entries.len()
    }

    /// Ends the startup phase: from now on every registration is refused. The
    /// registered clients stay as they are.
    pub fn seal(&mut self)
        ensures
            final(self).sealed(),
            final(self).clients() == old(self).clients(),
            old(self).wf() ==> final(self).wf(),
    {
        self.sealed = true;
    }

    /// Registers `client` under `(kind, name)`. The call is refused, and the
    /// registry left as it was, once the registry is sealed or where the pair
    /// is taken.
    pub fn register(&mut self, kind: &str, name: &str, client: C) -> (outcome: Result<
        (),
        RegisterError,
    >)
        requires
            old(self).wf(),
        ensures
            final(self).wf(),
            final(self).sealed() == old(self).sealed(),
            match outcome {
                Ok(_) => !old(self).sealed() && !old(self).clients().contains_key((kind@, name@))
                    && final(self).clients() == old(self).clients().insert(
                    (kind@, name@),
                    client,
                ),
                Err(RegisterError::Sealed) => old(self).sealed() && final(self).clients() == old(
                    self,
                ).clients(),
                Err(RegisterError::Duplicate) => !old(self).sealed() && old(
                    self,
                ).clients().contains_key((kind@, name@)) && final(self).clients() == old(
                    self,
                ).clients(),
            },
    {
        if self.sealed {
            return Err(RegisterError::Sealed);
        }
        let kind = kind.to_owned();
        let name = name.to_owned();
        if self.position(&kind, &name).is_some() {
            return Err(RegisterError::Duplicate);
        }
        let entry = Entry { kind, name, client };
        let ghost before = self.entries@;
        self.entries.push(entry);
        proof {
            assert(self.entries@.drop_last() =~= before);
            assert(self.entries@.last() == entry);
            lemma_mapping_domain(before, entry.key());
            assert forall|i: int, j: int| 0 <= i < j < self.entries@.len() implies (
            #[trigger] self.entries@[i]).key() != (#[trigger] self.entries@[j]).key() by {
                assert(self.entries@[i] == before[i]);
                if j < before.len() {
                    assert(self.entries@[j] == before[j]);
                }
            }
        }
        Ok(())
    }

    /// The client registered under `(kind, name)`. A pair that was never
    /// registered is an ordinary outcome: the error names the pair.
    pub fn lookup(&self, kind: &str, name: &str) -> (outcome: Result<&C, Error>)
        requires
            self.wf(),
        ensures
            self.lookup_outcome(kind@, name@, outcome),
    {
        let kind = kind.to_owned();
        let name = name.to_owned();
        match self.position(&kind, &name) {
            Some(i) => {
                proof {
                    lemma_mapping_value(self.entries@, i as int);
                }
                Ok(&self.entries[i].client)
            },
            None => Err(Error::NotFound { kind, name }),
        }
    }

    /// Whether a client is registered under `(kind, name)`.
    pub fn contains(&self, kind: &str, name: &str) -> (b: bool)
        ensures
            b == self.clients().contains_key((kind@, name@)),
    {
        let kind = kind.to_owned();
        let name = name.to_owned();
        self.position(&kind, &name).is_some()
    }

    /// The index of the registration under `(kind, name)`.
    fn position(&self, kind: &String, name: &String) -> (found: Option<usize>)
        ensures
            match found {
                Some(i) => i < self.entries@.len() && self.entries@[i as int].key() == (
                    kind@,
                    name@,
                ),
                None => true,
            },
            found is Some <==> self.clients().contains_key((kind@, name@)),
    {
        let mut i: usize = 0;
        while i < self.entries.len()
            invariant
                i <= self.entries.len(),
                forall|j: int| 0 <= j < i ==> (#[trigger] self.entries@[j]).key() != (kind@, name@),
            decreases self.entries.len() - i,
        {
            let entry = &self.entries[i];
            if entry.kind == *kind && entry.name == *name {
                proof {
                    lemma_mapping_domain(self.entries@, (kind@, name@));
                }
                return Some(i);
            }
            i += 1;
        }
        proof {
            lemma_mapping_domain(self.entries@, (kind@, name@));
        }
        None
    }
}

/// Where keys are distinct, the mapping has one key for each registration.
pub proof fn lemma_mapping_size<C>(entries: Seq<Entry<C>>)
    requires
        distinct_keys(entries),
    ensures
        mapping_of(entries).dom().finite(),
        mapping_of(entries).dom().len() == entries.len(),
    decreases entries.len(),
{
    if entries.len() > 0 {
        let front = entries.drop_last();
        assert(distinct_keys(front)) by {
            assert forall|a: int, b: int| 0 <= a < b < front.len() implies (#[trigger] front[a]).key()
                != (#[trigger] front[b]).key() by {
                assert(front[a] == entries[a]);
                assert(front[b] == entries[b]);
            }
        }
        lemma_mapping_size(front);
        lemma_mapping_domain(front, entries.last().key());
        assert(!mapping_of(front).contains_key(entries.last().key())) by {
            if mapping_of(front).contains_key(entries.last().key()) {
                let i = choose|i: int|
                    0 <= i < front.len() && (#[trigger] front[i]).key() == entries.last().key();
                assert(entries[i] == front[i]);
                assert(entries[i].key() != entries[entries.len() - 1].key());
            }
        }
        assert(mapping_of(entries).dom() =~= mapping_of(front).dom().insert(entries.last().key()));
    }
}

/// Lookup is a function of the registry and the pair: any two lookups of one
/// pair in one registry give the same client, or both report the pair as not
/// found.
pub proof fn lemma_lookup_idempotent<C>(
    registry: ClientRegistry<C>,
    kind: Seq<char>,
    name: Seq<char>,
    first: Result<&C, Error>,
    second: Result<&C, Error>,
)
    requires
        registry.lookup_outcome(kind, name, first),
        registry.lookup_outcome(kind, name, second),
    ensures
        first is Ok <==> second is Ok,
        first is Ok ==> *first->Ok_0 == *second->Ok_0,
        first is Err ==> first->Err_0.is_not_found(kind, name) && second->Err_0.is_not_found(
            kind,
            name,
        ),
{
}

/// A client that was just registered is the one that a lookup of its pair
/// gives, and every other pair leads where it led before.
pub proof fn lemma_registered_is_found<C>(
    before: ClientRegistry<C>,
    after: ClientRegistry<C>,
    kind: Seq<char>,
    name: Seq<char>,
    client: C,
    outcome: Result<&C, Error>,
)
    requires
        after.clients() == before.clients().insert((kind, name), client),
        after.lookup_outcome(kind, name, outcome),
    ensures
        outcome is Ok,
        *outcome->Ok_0 == client,
        forall|other: ClientKey|
            other != (kind, name) ==> (#[trigger] after.clients().contains_key(other)
                == before.clients().contains_key(other)),
{
}

} // verus!
