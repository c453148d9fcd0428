//! The two request handlers, as pure functions from the request's data and
//! the store to the response: one that answers any caller with the requested
//! user's reservations, and one that first checks that the caller's asserted
//! identity matches the requested user.

use crate::reservation::{Reservation, ReservationView, reservation_views};
use crate::store::{Store, lookup};
use vstd::prelude::*;
use vstd::string::StringExecFns;

verus! {

/// The caller's asserted identity, as read from the
/// `X-Authenticated-User-ID` request header: absent, present but not
/// decodable as text, or a decoded value.
#[derive(Clone, Debug, PartialEq, Eq)]
pub enum AssertedIdentity {
    Missing,
    Malformed,
    Claimed(String),
}

/// The mathematical image of an [`AssertedIdentity`].
#[verifier::ext_equal]
pub ghost enum AssertedIdentityView {
    Missing,
    Malformed,
    Claimed(Seq<char>),
}

impl View for AssertedIdentity {
    type V = AssertedIdentityView;

    open spec fn view(&self) -> AssertedIdentityView {
        match self {
            AssertedIdentity::Missing => AssertedIdentityView::Missing,
            AssertedIdentity::Malformed => AssertedIdentityView::Malformed,
            AssertedIdentity::Claimed(id) => AssertedIdentityView::Claimed(id@),
        }
    }
}

/// A handler's answer: the reservations to serialize under a success status,
/// or a rejection with its status and message.
#[derive(Clone, Debug, PartialEq, Eq)]
pub enum Response {
    Success(Vec<Reservation>),
    Unauthorized(String),
    BadRequest(String),
    Forbidden(String),
}

/// The mathematical image of a [`Response`].
#[verifier::ext_equal]
pub ghost enum ResponseView {
    Success(Seq<ReservationView>),
    Unauthorized(Seq<char>),
    BadRequest(Seq<char>),
    Forbidden(Seq<char>),
}

impl View for Response {
    type V = ResponseView;

    open spec fn view(&self) -> ResponseView {
        match self {
            Response::Success(rs) => ResponseView::Success(reservation_views(rs@)),
            Response::Unauthorized(msg) => ResponseView::Unauthorized(msg@),
            Response::BadRequest(msg) => ResponseView::BadRequest(msg@),
            Response::Forbidden(msg) => ResponseView::Forbidden(msg@),
        }
    }
}

/// The HTTP status code that each response carries.
pub open spec fn status_of(r: ResponseView) -> u16 {
    match r {
        ResponseView::Success(_) => 200,
        ResponseView::Unauthorized(_) => 401,
        ResponseView::BadRequest(_) => 400,
        ResponseView::Forbidden(_) => 403,
    }
}

impl Response {
    /// The HTTP status code of this response.
    pub fn status_code(&self) -> (c: u16)
        ensures
            c == status_of(self@),
    {
        match self {
            Response::Success(_) => 200,
            Response::Unauthorized(_) => 401,
            Response::BadRequest(_) => 400,
            Response::Forbidden(_) => 403,
        }
    }
}

/// The message sent when the identity header is absent.
pub open spec fn missing_header_message() -> Seq<char> {
    "Missing X-Authenticated-User-ID header."@
}

/// The message sent when the identity header is not decodable as text.
pub open spec fn malformed_header_message() -> Seq<char> {
    "Invalid X-Authenticated-User-ID header format."@
}

/// The message sent when the asserted identity differs from the requested
/// user: it names both.
pub open spec fn forbidden_message(asserted: Seq<char>, requested: Seq<char>) -> Seq<char> {
    "Unauthorized access. You (User '"@ + asserted
        + "') cannot access reservations for User '"@ + requested + "'."@
}

/// What the vulnerable handler answers: the requested user's reservations
/// with a success status, whoever asks.
pub open spec fn vulnerable_response(
    contents: Map<Seq<char>, Seq<ReservationView>>,
    requested_id: Seq<char>,
) -> ResponseView {
    ResponseView::Success(lookup(contents, requested_id))
}

/// What the secure handler answers: a rejection unless the caller's asserted
/// identity is present, well formed and equal to the requested user; the
/// owner's reservations otherwise.
pub open spec fn secure_response(
    contents: Map<Seq<char>, Seq<ReservationView>>,
    requested_id: Seq<char>,
    identity: AssertedIdentityView,
) -> ResponseView {
    match identity {
        AssertedIdentityView::Missing => ResponseView::Unauthorized(missing_header_message()),
        AssertedIdentityView::Malformed => ResponseView::BadRequest(malformed_header_message()),
        AssertedIdentityView::Claimed(asserted) => if asserted != requested_id {
            ResponseView::Forbidden(forbidden_message(asserted, requested_id))
        } else {
            ResponseView::Success(lookup(contents, asserted))
        },
    }
}

/// Answers with the reservations of whatever user the path names, without
/// any check of who is asking. This is the broken-object-level-authorization
/// defect under study: the caller's identity is not even an input.
pub fn get_reservations_vulnerable(db: &Store, user_id_from_path: String) -> (resp: Response)
    ensures
        resp@ == vulnerable_response(db@, user_id_from_path@),
{
    let reservations = db.get(&user_id_from_path);
    Response::Success(reservations)
}

/// Answers with the requested user's reservations only when the caller's
/// asserted identity is present, well formed, and equal to the requested
/// user; rejects the request otherwise, in that order of checks, without
/// touching the store.
pub fn get_reservations_secure(
    db: &Store,
    requested_id: String,
    identity: AssertedIdentity,
) -> (resp: Response)
    ensures
        resp@ == secure_response(db@, requested_id@, identity@),
{
    let current_user_id: String = match identity {
        AssertedIdentity::Missing => {
            return Response::Unauthorized(String::from_str("Missing X-Authenticated-User-ID header."));
        },
        AssertedIdentity::Malformed => {
            return Response::BadRequest(String::from_str("Invalid X-Authenticated-User-ID header format."));
        },
        AssertedIdentity::Claimed(id) => id,
    };
    if current_user_id != requested_id {
        let mut message = String::from_str("Unauthorized access. You (User '");
        message.append(current_user_id.as_str());
        message.append("') cannot access reservations for User '");
        message.append(requested_id.as_str());
        message.append("'.");
        proof {
            assert(message@ =~= forbidden_message(current_user_id@, requested_id@));
        }
        return Response::Forbidden(message);
    }
    let reservations = db.get(&current_user_id);
    Response::Success(reservations)
}

} // verus!
