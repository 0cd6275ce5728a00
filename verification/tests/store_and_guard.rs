//! Tests of the session store and the authentication guard.

use backend::guard::authenticate;
use backend::guard::check_admin;
use backend::guard::check_participant;
use backend::guard::AdminAccess;
use backend::guard::GuardOutcome;
use backend::guard::ParticipantAccess;
use backend::store::AdminRegistry;
use backend::store::ParticipantRegistry;
use backend::store::Sessions;
use backend::token::AdminId;
use backend::token::Id;
use backend::token::ParticipantId;

fn store_with(participants: &[(u128, &str, &str, u8)], admins: &[(u128, &str)]) -> Sessions {
    let mut s = Sessions::new();
    for &(v, name, school, grade) in participants {
        assert!(s.insert_participant(
            ParticipantId(v),
            name.to_string(),
            school.to_string(),
            grade
        ));
    }
    for &(v, school) in admins {
        assert!(s.insert_admin(AdminId(v), school.to_string()));
    }
    s
}

#[test]
fn create_and_look_up_participant() {
    let mut s = Sessions::new();
    let id = s
        .new_participant("Ada".to_string(), "Tech High".to_string(), 11)
        .expect("a fresh random id collided in an empty store");
    assert!(s.has_person(Id::Participant(id)));
    let record = s.get_participant(id);
    assert_eq!(record.id, id);
    assert_eq!(record.name, "Ada");
    assert_eq!(record.school, "Tech High");
    assert_eq!(record.grade, 11);
}

#[test]
fn create_and_look_up_admin() {
    let mut s = Sessions::new();
    let id = s
        .new_admin("Tech High".to_string())
        .expect("a fresh random id collided in an empty store");
    assert!(s.has_person(Id::Admin(id)));
    let record = s.get_admin(id);
    assert_eq!(record.id, id);
    assert_eq!(record.school, "Tech High");
}

#[test]
fn forced_collision_does_not_overwrite() {
    let mut s = store_with(&[(7, "Ada", "Tech High", 11)], &[]);
    // a second record under the same id is refused...
    assert!(!s.insert_participant(ParticipantId(7), "Eve".to_string(), "Other".to_string(), 12));
    // ...and the first one is untouched
    let record = s.get_participant(ParticipantId(7));
    assert_eq!(record.name, "Ada");
    assert_eq!(record.school, "Tech High");
    assert_eq!(record.grade, 11);

    let mut s = store_with(&[], &[(9, "Tech High")]);
    assert!(!s.insert_admin(AdminId(9), "Other".to_string()));
    assert_eq!(s.get_admin(AdminId(9)).school, "Tech High");
}

#[test]
fn role_maps_are_disjoint() {
    // one numeric value in both id spaces: each lookup stays in its
    // own map
    let s = store_with(&[(5, "Ada", "Tech High", 11)], &[(6, "Tech High")]);
    assert!(s.has_person(Id::Participant(ParticipantId(5))));
    assert!(!s.has_person(Id::Admin(AdminId(5))));
    assert!(s.has_person(Id::Admin(AdminId(6))));
    assert!(!s.has_person(Id::Participant(ParticipantId(6))));
}

#[test]
fn guard_accepts_a_registered_participant() {
    let mut s = Sessions::new();
    let id = s
        .new_participant("Ada".to_string(), "Tech High".to_string(), 11)
        .expect("a fresh random id collided in an empty store");
    let cookie = Id::Participant(id).encode();
    assert!(cookie.starts_with('P'));
    let r = authenticate(&s.participants, &s.admins, Some(cookie.as_str()));
    assert_eq!(r.outcome, GuardOutcome::AuthenticatedParticipant(id));
    assert!(!r.delete_cookie);
    assert_eq!(s.get_participant(id).name, "Ada");
}

#[test]
fn guard_rejects_a_bad_tag_and_deletes_the_cookie() {
    let s = Sessions::new();
    let r = authenticate(&s.participants, &s.admins, Some("X999"));
    assert_eq!(r.outcome, GuardOutcome::Unauthenticated);
    assert!(r.delete_cookie);
}

#[test]
fn guard_rejects_a_stale_id_and_deletes_the_cookie() {
    // a well-formed token whose id is in no map, as after a restart
    let s = Sessions::new();
    let r = authenticate(&s.participants, &s.admins, Some("P123"));
    assert_eq!(r.outcome, GuardOutcome::Unauthenticated);
    assert!(r.delete_cookie);
}

#[test]
fn guard_without_cookie_deletes_nothing() {
    let s = Sessions::new();
    let r = authenticate(&s.participants, &s.admins, None);
    assert_eq!(r.outcome, GuardOutcome::Unauthenticated);
    assert!(!r.delete_cookie);
}

#[test]
fn guard_is_deterministic_without_writes() {
    let s = store_with(&[(5, "Ada", "Tech High", 11)], &[(6, "Tech High")]);
    for cookie in [None, Some("P5"), Some("A6"), Some("P6"), Some("X999")] {
        let first = authenticate(&s.participants, &s.admins, cookie);
        let second = authenticate(&s.participants, &s.admins, cookie);
        assert_eq!(first, second);
    }
}

#[test]
fn admin_cookie_falls_through_a_participant_route() {
    let mut s = Sessions::new();
    let id = s
        .new_admin("Tech High".to_string())
        .expect("a fresh random id collided in an empty store");
    let cookie = Id::Admin(id).encode();
    assert!(cookie.starts_with('A'));
    let r = authenticate(&s.participants, &s.admins, Some(cookie.as_str()));
    assert_eq!(r.outcome, GuardOutcome::AuthenticatedAdmin(id));
    // the participant route does not authenticate it, nor rejects it
    // outright: it falls through for the admin handler
    assert_eq!(check_participant(&r), ParticipantAccess::OtherRole(id));
    assert!(!r.delete_cookie);
}

#[test]
fn participant_cookie_falls_through_an_admin_route() {
    let s = store_with(&[(5, "Ada", "Tech High", 11)], &[]);
    let r = authenticate(&s.participants, &s.admins, Some("P5"));
    assert_eq!(
        check_admin(&r),
        AdminAccess::OtherRole(ParticipantId(5))
    );
    assert_eq!(
        check_participant(&r),
        ParticipantAccess::Granted(ParticipantId(5))
    );
}

#[test]
fn unauthenticated_narrows_to_unauthenticated() {
    let s = Sessions::new();
    let r = authenticate(&s.participants, &s.admins, None);
    assert_eq!(check_participant(&r), ParticipantAccess::Unauthenticated);
    assert_eq!(check_admin(&r), AdminAccess::Unauthenticated);
}

#[test]
fn wrong_case_cookie_still_authenticates() {
    // the tag is read case-insensitively
    let s = store_with(&[(5, "Ada", "Tech High", 11)], &[]);
    let r = authenticate(&s.participants, &s.admins, Some("p5"));
    assert_eq!(
        r.outcome,
        GuardOutcome::AuthenticatedParticipant(ParticipantId(5))
    );
}

#[test]
fn registries_stand_on_their_own() {
    // each role's registry is independent, so a boundary can lock
    // them separately
    let mut p = ParticipantRegistry::new();
    let id = p
        .create("Ada".to_string(), "Tech High".to_string(), 11)
        .expect("creation against an empty registry cannot collide");
    assert!(p.has(id));
    assert_eq!(p.get(id).name, "Ada");

    let mut a = AdminRegistry::new();
    let aid = a
        .create("Tech High".to_string())
        .expect("creation against an empty registry cannot collide");
    assert!(a.has(aid));
    assert_eq!(a.get(aid).school, "Tech High");
}

#[test]
fn fresh_ids_do_not_collide_in_practice() {
    let mut s = Sessions::new();
    let a = s
        .new_participant("Ada".to_string(), "Tech High".to_string(), 11)
        .expect("a fresh random id collided");
    let b = s
        .new_participant("Grace".to_string(), "Tech High".to_string(), 12)
        .expect("a fresh random id collided");
    assert_ne!(a, b);
    assert_eq!(s.get_participant(a).name, "Ada");
    assert_eq!(s.get_participant(b).name, "Grace");
}
