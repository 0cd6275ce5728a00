//! The session store: two independent, append-only registries of
//! records, one per role, each keyed by the numeric value of its own
//! id type.
//!
//! Creation draws a random 128-bit identifier and refuses to insert on
//! a collision, so an existing record is never silently overwritten.
//! Lookups for one role never consult the other role's registry.
//!
//! Lookups borrow a registry and creation takes it exclusively; the
//! process-wide sharing across concurrent requests is a reader-writer
//! lock per registry at the boundary, outside this library, so that
//! one role's writes never block the other role's reads.

use vstd::prelude::*;
use std::collections::HashMap;
use crate::token::AdminId;
use crate::token::Id;
use crate::token::ParticipantId;

verus! {

broadcast use vstd::std_specs::hash::group_hash_axioms;

/// A participant record, immutable once created.
#[derive(Clone, PartialEq, Eq, Hash, Debug)]
pub struct Participant {
    pub id: ParticipantId,
    pub name: String,
    pub school: String,
    pub grade: u8,
}

/// An admin record, immutable once created.
#[derive(Clone, PartialEq, Eq, Hash, Debug)]
pub struct Admin {
    pub id: AdminId,
    pub school: String,
}

/// A record of either role.
#[derive(Clone, PartialEq, Eq, Hash, Debug)]
pub enum Person {
    Participant(Participant),
    Admin(Admin),
}

/// Failure of record creation: the freshly drawn identifier already
/// names a record, and the store refuses to overwrite it.
#[derive(Copy, Clone, PartialEq, Eq, Hash, Debug, Structural)]
pub struct DuplicateId;

/// Relies on `rand::random::<u128>()`: a fresh high-entropy value from
/// a generator safe for concurrent use; nothing is promised of it.
#[verifier::external_body]
fn random_u128() -> u128 {
    rand::random()
}

/// The participant records, keyed by id value.
pub struct ParticipantRegistry {
    records: HashMap<u128, Participant>,
}

impl ParticipantRegistry {
    /// The records, as a map from id value to record.
    pub closed spec fn records(&self) -> Map<u128, Participant> {
        self.records@
    }

    /// Every record sits under its own id.
    pub open spec fn wf(&self) -> bool {
        forall|k: u128| #[trigger] self.records().contains_key(k)
            ==> self.records()[k].id == ParticipantId(k)
    }

    /// An empty registry.
    pub fn new() -> (s: Self)
        ensures
            s.records() == Map::<u128, Participant>::empty(),
            s.wf(),
    {
        ParticipantRegistry { records: HashMap::new() }
    }

    /// Whether the id names a record.
    pub fn has(&self, id: ParticipantId) -> (r: bool)
        ensures
            r == self.records().contains_key(id.0),
    {
        self.records.contains_key(&id.0)
    }

    /// The record under an id the guard has validated.
    pub fn get(&self, id: ParticipantId) -> (r: &Participant)
        requires
            self.records().contains_key(id.0),
        ensures
            *r == self.records()[id.0],
    {
        match self.records.get(&id.0) {
            Some(p) => p,
            None => vstd::pervasive::unreached(),
        }
    }

    /// Insert a record under a given id. The record goes in exactly
    /// when the id is free; an occupied id leaves the registry
    /// unchanged, so no record is ever overwritten.
    pub fn insert(&mut self, id: ParticipantId, name: String, school: String, grade: u8) -> (ok:
        bool)
        ensures
            ok == !old(self).records().contains_key(id.0),
            ok ==> final(self).records() == old(self).records().insert(
                id.0,
                (Participant { id, name, school, grade }),
            ),
            !ok ==> final(self).records() == old(self).records(),
            old(self).wf() ==> final(self).wf(),
    {
        if self.records.contains_key(&id.0) {
            false
        } else {
            self.records.insert(id.0, Participant { id, name, school, grade });
            true
        }
    }

    /// Create a record under a fresh random id. On the practically
    /// unreachable collision the registry is left unchanged and the
    /// caller learns of it; nothing is overwritten, and against an
    /// empty registry creation cannot fail.
    pub fn create(&mut self, name: String, school: String, grade: u8) -> (r: Result<
        ParticipantId,
        DuplicateId,
    >)
        ensures
            old(self).wf() ==> final(self).wf(),
            (match r {
                Ok(id) => !old(self).records().contains_key(id.0) && final(self).records()
                    == old(self).records().insert(id.0, (Participant { id, name, school, grade })),
                Err(_) => final(self).records() == old(self).records(),
            }),
            r matches Err(_) ==> exists|k: u128| #[trigger] old(self).records().contains_key(k),
    {
        let id = ParticipantId(random_u128());
        if self.insert(id, name, school, grade) {
            Ok(id)
        } else {
            proof {
                assert(old(self).records().contains_key(id.0));
            }
            Err(DuplicateId)
        }
    }
}

/// The admin records, keyed by id value.
pub struct AdminRegistry {
    records: HashMap<u128, Admin>,
}

impl AdminRegistry {
    /// The records, as a map from id value to record.
    pub closed spec fn records(&self) -> Map<u128, Admin> {
        self.records@
    }

    /// Every record sits under its own id.
    pub open spec fn wf(&self) -> bool {
        forall|k: u128| #[trigger] self.records().contains_key(k)
            ==> self.records()[k].id == AdminId(k)
    }

    /// An empty registry.
    pub fn new() -> (s: Self)
        ensures
            s.records() == Map::<u128, Admin>::empty(),
            s.wf(),
    {
        AdminRegistry { records: HashMap::new() }
    }

    /// Whether the id names a record.
    pub fn has(&self, id: AdminId) -> (r: bool)
        ensures
            r == self.records().contains_key(id.0),
    {
        self.records.contains_key(&id.0)
    }

    /// The record under an id the guard has validated.
    pub fn get(&self, id: AdminId) -> (r: &Admin)
        requires
            self.records().contains_key(id.0),
        ensures
            *r == self.records()[id.0],
    {
        match self.records.get(&id.0) {
            Some(a) => a,
            None => vstd::pervasive::unreached(),
        }
    }

    /// Insert a record under a given id, exactly when the id is free;
    /// an occupied id leaves the registry unchanged.
    pub fn insert(&mut self, id: AdminId, school: String) -> (ok: bool)
        ensures
            ok == !old(self).records().contains_key(id.0),
            ok ==> final(self).records() == old(self).records().insert(id.0, (Admin { id, school })),
            !ok ==> final(self).records() == old(self).records(),
            old(self).wf() ==> final(self).wf(),
    {
        if self.records.contains_key(&id.0) {
            false
        } else {
            self.records.insert(id.0, Admin { id, school });
            true
        }
    }

    /// Create a record under a fresh random id; symmetric to
    /// participant creation, and infallible against an empty registry.
    pub fn create(&mut self, school: String) -> (r: Result<AdminId, DuplicateId>)
        ensures
            old(self).wf() ==> final(self).wf(),
            (match r {
                Ok(id) => !old(self).records().contains_key(id.0) && final(self).records()
                    == old(self).records().insert(id.0, (Admin { id, school })),
                Err(_) => final(self).records() == old(self).records(),
            }),
            r matches Err(_) ==> exists|k: u128| #[trigger] old(self).records().contains_key(k),
    {
        let id = AdminId(random_u128());
        if self.insert(id, school) {
            Ok(id)
        } else {
            proof {
                assert(old(self).records().contains_key(id.0));
            }
            Err(DuplicateId)
        }
    }
}

/// The registry of participant and admin records: the two per-role
/// registries as one store. The registries are independent, so a
/// boundary that shares the store may lock each on its own.
pub struct Sessions {
    pub participants: ParticipantRegistry,
    pub admins: AdminRegistry,
}

impl Sessions {
    /// The participant records, as a map from id value to record.
    pub open spec fn participants(&self) -> Map<u128, Participant> {
        self.participants.records()
    }

    /// The admin records, as a map from id value to record.
    pub open spec fn admins(&self) -> Map<u128, Admin> {
        self.admins.records()
    }

    /// Every record sits under its own id.
    pub open spec fn wf(&self) -> bool {
        self.participants.wf() && self.admins.wf()
    }

    /// Whether a token names a record: a participant token is looked
    /// up in the participant registry alone, an admin token in the
    /// admin registry alone.
    pub open spec fn spec_has(&self, id: Id) -> bool {
        match id {
            Id::Participant(p) => self.participants().contains_key(p.0),
            Id::Admin(a) => self.admins().contains_key(a.0),
        }
    }

    /// An empty store.
    pub fn new() -> (s: Self)
        ensures
            s.participants() == Map::<u128, Participant>::empty(),
            s.admins() == Map::<u128, Admin>::empty(),
            s.wf(),
    {
        Sessions { participants: ParticipantRegistry::new(), admins: AdminRegistry::new() }
    }

    /// Whether the token's id is present in the registry of its role.
    pub fn has_person(&self, id: Id) -> (r: bool)
        ensures
            r == self.spec_has(id),
    {
        match id {
            Id::Participant(pid) => self.participants.has(pid),
            Id::Admin(aid) => self.admins.has(aid),
        }
    }

    /// The participant record under an id the guard has validated.
    pub fn get_participant(&self, id: ParticipantId) -> (r: &Participant)
        requires
            self.spec_has(Id::Participant(id)),
        ensures
            *r == self.participants()[id.0],
    {
        self.participants.get(id)
    }

    /// The admin record under an id the guard has validated.
    pub fn get_admin(&self, id: AdminId) -> (r: &Admin)
        requires
            self.spec_has(Id::Admin(id)),
        ensures
            *r == self.admins()[id.0],
    {
        self.admins.get(id)
    }

    /// Insert a participant record under a given id, exactly when the
    /// id is free; see [`ParticipantRegistry::insert`].
    pub fn insert_participant(&mut self, id: ParticipantId, name: String, school: String, grade: u8) -> (ok: bool)
        ensures
            ok == !old(self).participants().contains_key(id.0),
            ok ==> final(self).participants() == old(self).participants().insert(
                id.0,
                (Participant { id, name, school, grade }),
            ),
            !ok ==> final(self).participants() == old(self).participants(),
            final(self).admins() == old(self).admins(),
            old(self).wf() ==> final(self).wf(),
    {
        self.participants.insert(id, name, school, grade)
    }

    /// Insert an admin record under a given id, exactly when the id is
    /// free; see [`AdminRegistry::insert`].
    pub fn insert_admin(&mut self, id: AdminId, school: String) -> (ok: bool)
        ensures
            ok == !old(self).admins().contains_key(id.0),
            ok ==> final(self).admins() == old(self).admins().insert(id.0, (Admin { id, school })),
            !ok ==> final(self).admins() == old(self).admins(),
            final(self).participants() == old(self).participants(),
            old(self).wf() ==> final(self).wf(),
    {
        self.admins.insert(id, school)
    }

    /// Create a participant record under a fresh random id. On the
    /// practically unreachable collision the store is left unchanged
    /// and the caller learns of it; nothing is overwritten, and a
    /// collision can only be reported when some record already exists.
    pub fn new_participant(&mut self, name: String, school: String, grade: u8) -> (r: Result<
        ParticipantId,
        DuplicateId,
    >)
        ensures
            final(self).admins() == old(self).admins(),
            old(self).wf() ==> final(self).wf(),
            (match r {
                Ok(id) => !old(self).participants().contains_key(id.0) && final(self).participants()
                    == old(self).participants().insert(id.0, (Participant { id, name, school, grade })),
                Err(_) => final(self).participants() == old(self).participants(),
            }),
            r matches Err(_) ==> exists|k: u128| #[trigger] old(self).participants().contains_key(k),
    {
        self.participants.create(name, school, grade)
    }

    /// Create an admin record under a fresh random id; symmetric to
    /// participant creation.
    pub fn new_admin(&mut self, school: String) -> (r: Result<AdminId, DuplicateId>)
        ensures
            final(self).participants() == old(self).participants(),
            old(self).wf() ==> final(self).wf(),
            (match r {
                Ok(id) => !old(self).admins().contains_key(id.0) && final(self).admins()
                    == old(self).admins().insert(id.0, (Admin { id, school })),
                Err(_) => final(self).admins() == old(self).admins(),
            }),
            r matches Err(_) ==> exists|k: u128| #[trigger] old(self).admins().contains_key(k),
    {
        self.admins.create(school)
    }
}

/// Disjointness law, one direction: whether a participant token names
/// a record depends on the participant registry alone, never on the
/// admin registry, whatever numeric values the two id spaces share.
pub proof fn lemma_participant_lookup_ignores_admins(a: Sessions, b: Sessions, p: ParticipantId)
    requires
        a.participants() == b.participants(),
    ensures
        a.spec_has(Id::Participant(p)) == b.spec_has(Id::Participant(p)),
{
}

/// Disjointness law, other direction: whether an admin token names a
/// record depends on the admin registry alone, never on the
/// participant registry.
pub proof fn lemma_admin_lookup_ignores_participants(a: Sessions, b: Sessions, ad: AdminId)
    requires
        a.admins() == b.admins(),
    ensures
        a.spec_has(Id::Admin(ad)) == b.spec_has(Id::Admin(ad)),
{
}

} // verus!
