//! The reservation store: a map from a user identifier to that user's
//! reservations, backed by `dashmap::DashMap` so that many requests may read
//! it concurrently. The map itself is outside code; its contents are named by
//! [`contents_of`], and each operation the store makes is a trusted wrapper
//! whose contract states what the `dashmap` source shows.

use crate::reservation::{Reservation, ReservationView, reservation_views};
use vstd::prelude::*;

verus! {

#[verifier::external_type_specification]
#[verifier::external_body]
#[verifier::reject_recursive_types(K)]
#[verifier::reject_recursive_types(V)]
#[verifier::reject_recursive_types(S)]
pub struct ExDashMap<K, V, S>(dashmap::DashMap<K, V, S>);

/// The backing map: user identifier to that user's reservations.
type BackingMap = dashmap::DashMap<String, Vec<Reservation>, std::hash::RandomState>;

/// What the map holds: each user identifier to the views of that user's
/// reservations, in insertion order.
pub uninterp spec fn contents_of(m: BackingMap) -> Map<Seq<char>, Seq<ReservationView>>;

/// Relies on `dashmap::DashMap::insert`: the value is now associated with the
/// key, every other key keeps its value.
#[verifier::external_body]
fn dashmap_insert(m: &mut BackingMap, key: String, value: Vec<Reservation>)
    ensures
        contents_of(*final(m)) == contents_of(*old(m)).insert(key@, reservation_views(value@)),
{
    m.insert(key, value);
}

/// Relies on `dashmap::DashMap::get`: the value associated with the key, or
/// nothing when the key is absent. The guard it returns is released at once;
/// the caller gets a copy of the entry.
#[verifier::external_body]
fn dashmap_get(m: &BackingMap, key: &String) -> (r: Option<Vec<Reservation>>)
    ensures
        match r {
            Some(v) => contents_of(*m).contains_key(key@) && reservation_views(v@)
                == contents_of(*m)[key@],
            None => !contents_of(*m).contains_key(key@),
        },
{
    m.get(key).map(|entry| entry.value().clone())
}

/// The in-memory reservation store. Its view is the map from user identifier
/// to that user's reservations; [`Store::well_formed`] says that every
/// reservation sits under its owner's key.
pub struct Store {
    map: BackingMap,
}

/// The contents of a store that holds nothing.
pub open spec fn empty_contents() -> Map<Seq<char>, Seq<ReservationView>> {
    Map::empty()
}

/// Relies on `dashmap::DashMap::with_capacity`: a freshly created map holds
/// nothing; the capacity only preallocates space.
#[verifier::external_body]
fn empty_store(capacity: usize) -> (s: Store)
    ensures
        s@ == empty_contents(),
{
    Store { map: dashmap::DashMap::with_capacity(capacity) }
}

impl View for Store {
    type V = Map<Seq<char>, Seq<ReservationView>>;

    closed spec fn view(&self) -> Map<Seq<char>, Seq<ReservationView>> {
        contents_of(self.map)
    }
}

/// Every reservation stored under a user's key is owned by that user.
pub open spec fn owned_by(rs: Seq<ReservationView>, user_id: Seq<char>) -> bool {
    forall|i: int| 0 <= i < rs.len() ==> #[trigger] rs[i].user_id == user_id
}

impl Store {
    /// Every reservation in the store sits in the sequence keyed by its
    /// owning user's identifier.
    pub open spec fn well_formed(&self) -> bool {
        forall|u: Seq<char>| self@.contains_key(u) ==> owned_by(#[trigger] self@[u], u)
    }

    /// An empty store.
    pub fn new() -> (s: Store)
        ensures
            s@ == empty_contents(),
            s.well_formed(),
    {
        empty_store(0)
    }

    /// Associates the sequence with the key, replacing any earlier entry.
    /// Used only while seeding; every reservation put under a key must be
    /// owned by that key's user.
    pub fn put(&mut self, user_id: String, reservations: Vec<Reservation>)
        requires
            old(self).well_formed(),
            owned_by(reservation_views(reservations@), user_id@),
        ensures
            final(self)@ == old(self)@.insert(user_id@, reservation_views(reservations@)),
            final(self).well_formed(),
    {
        let ghost before = self@;
        dashmap_insert(&mut self.map, user_id, reservations);
        proof {
            assert forall|u: Seq<char>| self@.contains_key(u) implies owned_by(self@[u], u) by {
                if u != user_id@ {
                    assert(self@[u] == before[u]);
                }
            }
        }
    }

    /// All reservations owned by `user_id`, in insertion order; an empty
    /// vector when the user is absent. Absence is not an error.
    pub fn get(&self, user_id: &String) -> (r: Vec<Reservation>)
        ensures
            reservation_views(r@) == lookup(self@, user_id@),
    {
        match dashmap_get(&self.map, user_id) {
            Some(v) => v,
            None => {
                let r: Vec<Reservation> = Vec::new();
                proof {
                    assert(reservation_views(r@) =~= Seq::<ReservationView>::empty());
                }
                r
            },
        }
    }
}

/// What a lookup yields: the stored sequence when the user is known, the
/// empty sequence otherwise.
pub open spec fn lookup(
    m: Map<Seq<char>, Seq<ReservationView>>,
    user_id: Seq<char>,
) -> Seq<ReservationView> {
    if m.contains_key(user_id) {
        m[user_id]
    } else {
        Seq::<ReservationView>::empty()
    }
}

} // verus!
