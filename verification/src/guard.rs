//! The authentication guard: the per-request pipeline that turns the
//! `id` cookie, if any, into a role-typed outcome against the store.
//!
//! The outcome is a pure function of the two registries' contents and
//! the cookie value. A cookie that fails to decode, or decodes to an
//! id the store does not hold, yields `Unauthenticated` together with
//! the order to delete the cookie; a missing cookie yields
//! `Unauthenticated` with nothing to delete.

use vstd::prelude::*;
use crate::store::Admin;
use crate::store::AdminRegistry;
use crate::store::Participant;
use crate::store::ParticipantRegistry;
use crate::token::AdminId;
use crate::token::Id;
use crate::token::ParticipantId;
use crate::token::spec_decode;

verus! {

/// The guard's outcome: a validated identity of one of the two roles,
/// or no identity at all.
#[derive(Copy, Clone, PartialEq, Eq, Hash, Debug, Structural)]
pub enum GuardOutcome {
    AuthenticatedParticipant(ParticipantId),
    AuthenticatedAdmin(AdminId),
    Unauthenticated,
}

/// What the guard hands back: the outcome, and whether the response
/// must delete the `id` cookie to heal the client.
#[derive(Copy, Clone, PartialEq, Eq, Hash, Debug, Structural)]
pub struct GuardResult {
    pub outcome: GuardOutcome,
    pub delete_cookie: bool,
}

/// The guard's full decision tree over the two registries' contents
/// and the cookie value, if one was presented.
pub open spec fn spec_authenticate(
    participants: Map<u128, Participant>,
    admins: Map<u128, Admin>,
    cookie: Option<Seq<char>>,
) -> GuardResult {
    match cookie {
        None => GuardResult { outcome: GuardOutcome::Unauthenticated, delete_cookie: false },
        Some(c) => match spec_decode(c) {
            Err(_) => GuardResult { outcome: GuardOutcome::Unauthenticated, delete_cookie: true },
            Ok(id) => match id {
                Id::Participant(p) => if participants.contains_key(p.0) {
                    GuardResult {
                        outcome: GuardOutcome::AuthenticatedParticipant(p),
                        delete_cookie: false,
                    }
                } else {
                    GuardResult { outcome: GuardOutcome::Unauthenticated, delete_cookie: true }
                },
                Id::Admin(a) => if admins.contains_key(a.0) {
                    GuardResult {
                        outcome: GuardOutcome::AuthenticatedAdmin(a),
                        delete_cookie: false,
                    }
                } else {
                    GuardResult { outcome: GuardOutcome::Unauthenticated, delete_cookie: true }
                },
            },
        },
    }
}

/// Resolve the `id` cookie, if any, against the two registries. They
/// are taken separately so a shared store can stand behind one lock
/// per registry.
pub fn authenticate(
    participants: &ParticipantRegistry,
    admins: &AdminRegistry,
    cookie: Option<&str>,
) -> (r: GuardResult)
    ensures
        cookie matches Some(c) ==> r == spec_authenticate(
            participants.records(),
            admins.records(),
            Some(c@),
        ),
        cookie is None ==> r == spec_authenticate(
            participants.records(),
            admins.records(),
            None::<Seq<char>>,
        ),
{
    match cookie {
        None => GuardResult { outcome: GuardOutcome::Unauthenticated, delete_cookie: false },
        Some(c) => match Id::decode(c) {
            Err(_) => GuardResult { outcome: GuardOutcome::Unauthenticated, delete_cookie: true },
            Ok(id) => match id {
                Id::Participant(p) => {
                    if participants.has(p) {
                        GuardResult {
                            outcome: GuardOutcome::AuthenticatedParticipant(p),
                            delete_cookie: false,
                        }
                    } else {
                        GuardResult { outcome: GuardOutcome::Unauthenticated, delete_cookie: true }
                    }
                },
                Id::Admin(a) => {
                    if admins.has(a) {
                        GuardResult {
                            outcome: GuardOutcome::AuthenticatedAdmin(a),
                            delete_cookie: false,
                        }
                    } else {
                        GuardResult { outcome: GuardOutcome::Unauthenticated, delete_cookie: true }
                    }
                },
            },
        },
    }
}

/// What a route that needs a participant does with a guard outcome:
/// proceed, fall through to the handler for the other role, or treat
/// the request as not logged in.
#[derive(Copy, Clone, PartialEq, Eq, Hash, Debug, Structural)]
pub enum ParticipantAccess {
    Granted(ParticipantId),
    OtherRole(AdminId),
    Unauthenticated,
}

/// What a route that needs an admin does with a guard outcome.
#[derive(Copy, Clone, PartialEq, Eq, Hash, Debug, Structural)]
pub enum AdminAccess {
    Granted(AdminId),
    OtherRole(ParticipantId),
    Unauthenticated,
}

/// Narrow a guard outcome for a route that requires a participant: a
/// valid admin identity falls through instead of failing outright.
pub fn check_participant(r: &GuardResult) -> (a: ParticipantAccess)
    ensures
        a == (match r.outcome {
            GuardOutcome::AuthenticatedParticipant(p) => ParticipantAccess::Granted(p),
            GuardOutcome::AuthenticatedAdmin(x) => ParticipantAccess::OtherRole(x),
            GuardOutcome::Unauthenticated => ParticipantAccess::Unauthenticated,
        }),
{
    match r.outcome {
        GuardOutcome::AuthenticatedParticipant(p) => ParticipantAccess::Granted(p),
        GuardOutcome::AuthenticatedAdmin(x) => ParticipantAccess::OtherRole(x),
        GuardOutcome::Unauthenticated => ParticipantAccess::Unauthenticated,
    }
}

/// Narrow a guard outcome for a route that requires an admin; a valid
/// participant identity falls through.
pub fn check_admin(r: &GuardResult) -> (a: AdminAccess)
    ensures
        a == (match r.outcome {
            GuardOutcome::AuthenticatedAdmin(x) => AdminAccess::Granted(x),
            GuardOutcome::AuthenticatedParticipant(p) => AdminAccess::OtherRole(p),
            GuardOutcome::Unauthenticated => AdminAccess::Unauthenticated,
        }),
{
    match r.outcome {
        GuardOutcome::AuthenticatedAdmin(x) => AdminAccess::Granted(x),
        GuardOutcome::AuthenticatedParticipant(p) => AdminAccess::OtherRole(p),
        GuardOutcome::Unauthenticated => AdminAccess::Unauthenticated,
    }
}

/// Determinism law: one store state and one cookie value admit one
/// guard result; two resolutions with no write in between agree.
pub proof fn lemma_guard_deterministic(
    participants: Map<u128, Participant>,
    admins: Map<u128, Admin>,
    cookie: Option<Seq<char>>,
    r1: GuardResult,
    r2: GuardResult,
)
    requires
        r1 == spec_authenticate(participants, admins, cookie),
        r2 == spec_authenticate(participants, admins, cookie),
    ensures
        r1 == r2,
{
}

/// Cleanup law: a presented cookie that fails to decode, or decodes
/// to an id the store does not hold, is ordered deleted, and the
/// request counts as unauthenticated; a valid cookie is kept, and a
/// missing one gives nothing to delete.
pub proof fn lemma_cookie_cleanup(
    participants: Map<u128, Participant>,
    admins: Map<u128, Admin>,
    cookie: Option<Seq<char>>,
)
    ensures
        ({
            let r = spec_authenticate(participants, admins, cookie);
            &&& r.delete_cookie <==> (cookie matches Some(c) && (spec_decode(c) is Err
                || (spec_decode(c) matches Ok(Id::Participant(p)) && !participants.contains_key(p.0))
                || (spec_decode(c) matches Ok(Id::Admin(a)) && !admins.contains_key(a.0))))
            &&& r.delete_cookie ==> r.outcome == GuardOutcome::Unauthenticated
            &&& cookie is None ==> r == (GuardResult {
                outcome: GuardOutcome::Unauthenticated,
                delete_cookie: false,
            })
        }),
{
}

} // verus!
