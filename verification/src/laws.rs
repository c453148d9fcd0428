//! The guarantees the two handlers give, stated over their specifications:
//! what the vulnerable endpoint leaks, what the secure endpoint refuses, and
//! that reads never change what a later identical request sees.

use crate::handlers::{
    AssertedIdentityView, ResponseView, forbidden_message, malformed_header_message,
    missing_header_message, secure_response, status_of, vulnerable_response,
};
use crate::reservation::ReservationView;
use crate::store::{lookup, owned_by};
use vstd::prelude::*;

verus! {

/// `name` occurs in `body` as a contiguous run of characters.
pub open spec fn mentions(body: Seq<char>, name: Seq<char>) -> bool {
    exists|i: int|
        0 <= i && i + name.len() <= body.len() && #[trigger] body.subrange(i, i + name.len())
            == name
}

/// Whoever asks, the vulnerable endpoint answers with a success status and
/// exactly the stored reservations of the requested user — the empty
/// sequence when that user is unknown.
pub proof fn vulnerable_returns_requested_users_data(
    contents: Map<Seq<char>, Seq<ReservationView>>,
    requested_id: Seq<char>,
)
    ensures
        contents.contains_key(requested_id) ==> vulnerable_response(contents, requested_id)
            == ResponseView::Success(contents[requested_id]),
        !contents.contains_key(requested_id) ==> vulnerable_response(contents, requested_id)
            == ResponseView::Success(Seq::<ReservationView>::empty()),
        status_of(vulnerable_response(contents, requested_id)) == 200,
{
}

/// The defect under study, and its absence on the secure endpoint: an
/// attacker asserting a different identity still receives the requested
/// user's reservations from the vulnerable endpoint — whose answer does not
/// depend on the attacker's identity at all — while the secure endpoint
/// answers the same attacker with a refusal carrying no reservation data.
pub proof fn attacker_reads_through_vulnerable_endpoint_only(
    contents: Map<Seq<char>, Seq<ReservationView>>,
    requested_id: Seq<char>,
    attacker_id: Seq<char>,
)
    requires
        attacker_id != requested_id,
    ensures
        vulnerable_response(contents, requested_id) == ResponseView::Success(
            lookup(contents, requested_id),
        ),
        secure_response(contents, requested_id, AssertedIdentityView::Claimed(attacker_id))
            == ResponseView::Forbidden(forbidden_message(attacker_id, requested_id)),
{
}

/// A request to the secure endpoint without the identity header is refused
/// as unauthorized, and one whose header is not decodable as text as a bad
/// request; neither carries any reservation data.
pub proof fn secure_requires_identity_header(
    contents: Map<Seq<char>, Seq<ReservationView>>,
    requested_id: Seq<char>,
)
    ensures
        secure_response(contents, requested_id, AssertedIdentityView::Missing)
            == ResponseView::Unauthorized(missing_header_message()),
        status_of(secure_response(contents, requested_id, AssertedIdentityView::Missing)) == 401,
        secure_response(contents, requested_id, AssertedIdentityView::Malformed)
            == ResponseView::BadRequest(malformed_header_message()),
        status_of(secure_response(contents, requested_id, AssertedIdentityView::Malformed)) == 400,
{
}

/// A caller whose asserted identity equals the requested user receives that
/// user's stored reservations with a success status — the empty sequence
/// when the user is unknown, which is not an error.
pub proof fn secure_owner_receives_own_data(
    contents: Map<Seq<char>, Seq<ReservationView>>,
    user_id: Seq<char>,
)
    ensures
        secure_response(contents, user_id, AssertedIdentityView::Claimed(user_id))
            == ResponseView::Success(lookup(contents, user_id)),
        status_of(secure_response(contents, user_id, AssertedIdentityView::Claimed(user_id)))
            == 200,
{
}

/// A caller whose asserted identity differs from the requested user is
/// refused as forbidden, with a message that names both identities.
pub proof fn secure_mismatch_is_forbidden(
    contents: Map<Seq<char>, Seq<ReservationView>>,
    requested_id: Seq<char>,
    asserted_id: Seq<char>,
)
    requires
        asserted_id != requested_id,
    ensures
        secure_response(contents, requested_id, AssertedIdentityView::Claimed(asserted_id))
            == ResponseView::Forbidden(forbidden_message(asserted_id, requested_id)),
        status_of(
            secure_response(contents, requested_id, AssertedIdentityView::Claimed(asserted_id)),
        ) == 403,
        mentions(forbidden_message(asserted_id, requested_id), asserted_id),
        mentions(forbidden_message(asserted_id, requested_id), requested_id),
{
    let opening = "Unauthorized access. You (User '"@;
    let middle = "') cannot access reservations for User '"@;
    let body = forbidden_message(asserted_id, requested_id);
    let asserted_at = opening.len() as int;
    let requested_at: int = (opening.len() + asserted_id.len() + middle.len()) as int;
    assert(body.subrange(asserted_at, asserted_at + asserted_id.len()) =~= asserted_id);
    assert(body.subrange(requested_at, requested_at + requested_id.len()) =~= requested_id);
}

/// Reads are idempotent: two requests that name the same user, carry the
/// same asserted identity and see the same store contents get the same
/// answer, on either endpoint — and since neither handler writes to the
/// store, repeating a request cannot change what the next one sees.
pub proof fn repeated_requests_get_identical_responses(
    contents: Map<Seq<char>, Seq<ReservationView>>,
    requested_id: Seq<char>,
    identity: AssertedIdentityView,
    first_vulnerable: ResponseView,
    second_vulnerable: ResponseView,
    first_secure: ResponseView,
    second_secure: ResponseView,
)
    requires
        first_vulnerable == vulnerable_response(contents, requested_id),
        second_vulnerable == vulnerable_response(contents, requested_id),
        first_secure == secure_response(contents, requested_id, identity),
        second_secure == secure_response(contents, requested_id, identity),
    ensures
        first_vulnerable == second_vulnerable,
        first_secure == second_secure,
{
}

/// In a well-formed store every reservation sits under its owner's key, so
/// whenever the secure endpoint answers with a success, every reservation in
/// the body is owned by the requested user.
pub proof fn secure_success_bodies_are_owned_by_requester(
    contents: Map<Seq<char>, Seq<ReservationView>>,
    requested_id: Seq<char>,
    identity: AssertedIdentityView,
)
    requires
        forall|u: Seq<char>| contents.contains_key(u) ==> owned_by(#[trigger] contents[u], u),
    ensures
        secure_response(contents, requested_id, identity) is Success ==> owned_by(
            secure_response(contents, requested_id, identity)->Success_0,
            requested_id,
        ),
{
}

} // verus!
