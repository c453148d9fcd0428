use bola_demo::handlers::{AssertedIdentity, Response, get_reservations_secure, get_reservations_vulnerable};
use bola_demo::seed::seeded_store;

#[test]
fn vulnerable_returns_seeded_reservations_for_known_user() {
    let db = seeded_store();
    let resp = get_reservations_vulnerable(&db, String::from("alice_cooper"));
    assert_eq!(resp.status_code(), 200);
    match resp {
        Response::Success(rs) => {
            assert_eq!(rs.len(), 2);
            assert_eq!(rs[0].reservation_id, "alice_res_701");
            assert_eq!(rs[1].reservation_id, "alice_res_702");
        }
        other => panic!("expected a success, got {:?}", other),
    }
}

#[test]
fn vulnerable_returns_empty_for_unknown_user() {
    let db = seeded_store();
    let resp = get_reservations_vulnerable(&db, String::from("dave_grohl"));
    assert_eq!(resp.status_code(), 200);
    match resp {
        Response::Success(rs) => assert!(rs.is_empty()),
        other => panic!("expected a success, got {:?}", other),
    }
}

#[test]
fn vulnerable_serves_bob_without_any_header() {
    let db = seeded_store();
    let resp = get_reservations_vulnerable(&db, String::from("bob_marley"));
    assert_eq!(resp.status_code(), 200);
    match resp {
        Response::Success(rs) => {
            assert_eq!(rs.len(), 1);
            assert_eq!(rs[0].reservation_id, "bob_res_801");
            assert_eq!(rs[0].user_id, "bob_marley");
            assert_eq!(rs[0].item_details, "Sound System 'Reggae King'");
        }
        other => panic!("expected a success, got {:?}", other),
    }
}

#[test]
fn vulnerable_leaks_to_attacker_while_secure_refuses() {
    let db = seeded_store();

    // The attacker bob_marley asks for alice_cooper's reservations. The
    // vulnerable endpoint consults no identity at all, so the attacker gets
    // exactly what the owner herself would get.
    let leaked = get_reservations_vulnerable(&db, String::from("alice_cooper"));
    let owners_own = get_reservations_secure(
        &db,
        String::from("alice_cooper"),
        AssertedIdentity::Claimed(String::from("alice_cooper")),
    );
    assert_eq!(leaked, owners_own);
    match &leaked {
        Response::Success(rs) => assert_eq!(rs.len(), 2),
        other => panic!("expected a success, got {:?}", other),
    }

    // The secure endpoint refuses the same attacker and hands out no data.
    let refused = get_reservations_secure(
        &db,
        String::from("alice_cooper"),
        AssertedIdentity::Claimed(String::from("bob_marley")),
    );
    assert_eq!(refused.status_code(), 403);
    assert!(matches!(refused, Response::Forbidden(_)));
}

#[test]
fn vulnerable_repeated_requests_are_identical() {
    let db = seeded_store();
    let first = get_reservations_vulnerable(&db, String::from("bob_marley"));
    let second = get_reservations_vulnerable(&db, String::from("bob_marley"));
    assert_eq!(first, second);
}
