use bola_demo::reservation::Reservation;
use bola_demo::seed::seeded_store;
use bola_demo::store::Store;

#[test]
fn store_get_returns_what_was_put() {
    let mut db = Store::new();
    let reservations = vec![
        Reservation::new(
            String::from("res_1"),
            String::from("some_user"),
            String::from("A booked thing"),
        ),
        Reservation::new(
            String::from("res_2"),
            String::from("some_user"),
            String::from("Another booked thing"),
        ),
    ];
    db.put(String::from("some_user"), reservations.clone());
    let got = db.get(&String::from("some_user"));
    assert_eq!(got, reservations);
}

#[test]
fn store_get_of_absent_user_is_empty() {
    let db = Store::new();
    let got = db.get(&String::from("nobody"));
    assert!(got.is_empty());
}

#[test]
fn store_put_replaces_an_earlier_entry() {
    let mut db = Store::new();
    let first = vec![Reservation::new(
        String::from("res_1"),
        String::from("some_user"),
        String::from("A booked thing"),
    )];
    let second = vec![Reservation::new(
        String::from("res_2"),
        String::from("some_user"),
        String::from("Another booked thing"),
    )];
    db.put(String::from("some_user"), first);
    db.put(String::from("some_user"), second.clone());
    let got = db.get(&String::from("some_user"));
    assert_eq!(got, second);
}

#[test]
fn seeded_store_holds_all_three_users() {
    let db = seeded_store();
    assert_eq!(db.get(&String::from("alice_cooper")).len(), 2);
    assert_eq!(db.get(&String::from("bob_marley")).len(), 1);
    assert_eq!(db.get(&String::from("charlie_brown")).len(), 1);
    assert_eq!(
        db.get(&String::from("charlie_brown"))[0].item_details,
        "Comic Book Collection (Vol. 1-5)"
    );
}

#[test]
fn reservation_new_keeps_its_fields() {
    let r = Reservation::new(
        String::from("res_9"),
        String::from("some_user"),
        String::from("A booked thing"),
    );
    assert_eq!(r.reservation_id, "res_9");
    assert_eq!(r.user_id, "some_user");
    assert_eq!(r.item_details, "A booked thing");
}
