//! The fixed data the service starts with: three users, each with their
//! reservations, written into the store once before any request is served.

use crate::reservation::{Reservation, ReservationView, reservation_views};
use crate::store::{Store, empty_contents};
use vstd::prelude::*;
use vstd::string::StringExecFns;

verus! {

/// The two reservations seeded for `alice_cooper`, in order.
pub open spec fn alice_reservations() -> Seq<ReservationView> {
    seq![
        ReservationView {
            reservation_id: "alice_res_701"@,
            user_id: "alice_cooper"@,
            item_details: "Conference Room 'Phoenix'"@,
        },
        ReservationView {
            reservation_id: "alice_res_702"@,
            user_id: "alice_cooper"@,
            item_details: "Video Projector XL-100"@,
        },
    ]
}

/// The one reservation seeded for `bob_marley`.
pub open spec fn bob_reservations() -> Seq<ReservationView> {
    seq![
        ReservationView {
            reservation_id: "bob_res_801"@,
            user_id: "bob_marley"@,
            item_details: "Sound System 'Reggae King'"@,
        },
    ]
}

/// The one reservation seeded for `charlie_brown`.
pub open spec fn charlie_reservations() -> Seq<ReservationView> {
    seq![
        ReservationView {
            reservation_id: "charlie_res_901"@,
            user_id: "charlie_brown"@,
            item_details: "Comic Book Collection (Vol. 1-5)"@,
        },
    ]
}

/// The store contents after seeding on top of `before`.
pub open spec fn seeded_contents(
    before: Map<Seq<char>, Seq<ReservationView>>,
) -> Map<Seq<char>, Seq<ReservationView>> {
    before.insert("alice_cooper"@, alice_reservations()).insert(
        "bob_marley"@,
        bob_reservations(),
    ).insert("charlie_brown"@, charlie_reservations())
}

/// A store holding exactly the fixed seed data: what the service reads from
/// once it starts serving requests.
pub fn seeded_store() -> (s: Store)
    ensures
        s@ == seeded_contents(empty_contents()),
        s.well_formed(),
{
    let mut s = Store::new();
    populate_mock_db(&mut s);
    s
}

/// Writes the fixed seed data into the store: the mock stand-in for a real
/// data source, run once at startup.
pub fn populate_mock_db(db: &mut Store)
    requires
        old(db).well_formed(),
    ensures
        final(db)@ == seeded_contents(old(db)@),
        final(db).well_formed(),
{
    let mut alice: Vec<Reservation> = Vec::new();
    alice.push(
        Reservation::new(
            String::from_str("alice_res_701"),
            String::from_str("alice_cooper"),
            String::from_str("Conference Room 'Phoenix'"),
        ),
    );
    alice.push(
        Reservation::new(
            String::from_str("alice_res_702"),
            String::from_str("alice_cooper"),
            String::from_str("Video Projector XL-100"),
        ),
    );
    proof {
        assert(reservation_views(alice@) =~= alice_reservations());
    }
    db.put(String::from_str("alice_cooper"), alice);

    let mut bob: Vec<Reservation> = Vec::new();
    bob.push(
        Reservation::new(
            String::from_str("bob_res_801"),
            String::from_str("bob_marley"),
            String::from_str("Sound System 'Reggae King'"),
        ),
    );
    proof {
        assert(reservation_views(bob@) =~= bob_reservations());
    }
    db.put(String::from_str("bob_marley"), bob);

    let mut charlie: Vec<Reservation> = Vec::new();
    charlie.push(
        Reservation::new(
            String::from_str("charlie_res_901"),
            String::from_str("charlie_brown"),
            String::from_str("Comic Book Collection (Vol. 1-5)"),
        ),
    );
    proof {
        assert(reservation_views(charlie@) =~= charlie_reservations());
    }
    db.put(String::from_str("charlie_brown"), charlie);
}

} // verus!
