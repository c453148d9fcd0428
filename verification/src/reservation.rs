//! The reservation record: an immutable booking of one item by one user.

use vstd::prelude::*;

verus! {

/// The mathematical image of a [`Reservation`]: each text field as a
/// sequence of characters.
#[verifier::ext_equal]
pub ghost struct ReservationView {
    pub reservation_id: Seq<char>,
    pub user_id: Seq<char>,
    pub item_details: Seq<char>,
}

/// One booked item. `user_id` names the owning user; a reservation is never
/// updated or deleted once created.
#[derive(Clone, Debug, PartialEq, Eq)]
pub struct Reservation {
    pub reservation_id: String,
    pub user_id: String,
    pub item_details: String,
}

impl View for Reservation {
    type V = ReservationView;

    open spec fn view(&self) -> ReservationView {
        ReservationView {
            reservation_id: self.reservation_id@,
            user_id: self.user_id@,
            item_details: self.item_details@,
        }
    }
}

impl Reservation {
    pub fn new(reservation_id: String, user_id: String, item_details: String) -> (r: Reservation)
        ensures
            r@ == (ReservationView {
                reservation_id: reservation_id@,
                user_id: user_id@,
                item_details: item_details@,
            }),
    {
        Reservation { reservation_id, user_id, item_details }
    }
}

/// The views of a sequence of reservations, in the same order.
pub open spec fn reservation_views(rs: Seq<Reservation>) -> Seq<ReservationView> {
    rs.map_values(|r: Reservation| r@)
}

} // verus!
