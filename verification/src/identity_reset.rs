//! An app approving its own cross-signing reset with the access token it
//! already holds: which session may do so, for which user, and how each
//! refusal is answered.
use vstd::prelude::*;
use crate::text::str_equals;

verus! {

/// The scope every Gua app session carries for the homeserver API.
pub const MATRIX_CLIENT_API_SCOPE: &'static str = "urn:matrix:org.matrix.msc2967.client:api:*";

/// The Crockford base-32 digit of value `d` (`0`..`31`).
pub open spec fn crockford_digit(d: nat) -> char {
    "0123456789ABCDEFGHJKMNPQRSTVWXYZ"@[d as int]
}

/// The last `n` Crockford base-32 digits of `v`, most significant first.
pub open spec fn crockford_digits(v: nat, n: nat) -> Seq<char>
    decreases n,
{
    if n == 0 {
        Seq::empty()
    } else {
        crockford_digits(v / 32, (n - 1) as nat).push(crockford_digit(v % 32))
    }
}

/// The textual form of a ULID: its 128-bit value in 26 Crockford base-32
/// digits.
pub open spec fn ulid_text(id: u128) -> Seq<char> {
    crockford_digits(id as nat, 26)
}

/// Calls `ulid::Ulid::to_string` on the ULID whose value is `id`. The `ulid`
/// crate writes the value as 26 Crockford base-32 digits, five bits each from
/// the least significant end; that is what the contract claims.
#[verifier::external_body]
fn ulid_to_string(id: u128) -> (r: String)
    ensures
        r@ == ulid_text(id),
{
    ulid::Ulid(id).to_string()
}

/// Why an identity-reset request was refused.
#[derive(Debug, Clone)]
pub enum RouteError {
    /// An internal failure, with its message.
    Internal(String),
    /// The access token did not authenticate.
    AuthorizationVerificationError,
    /// The session is not allowed to approve an identity reset.
    Unauthorized,
    /// The session's user (its ULID as a 128-bit value) could not be loaded.
    NoSuchUser(u128),
    /// The homeserver refused to open the reset window; the homeserver's own
    /// message is kept.
    Homeserver(String),
}

/// An HTTP answer to a refused request.
#[derive(Debug, Clone)]
pub struct ErrorResponse {
    pub status: u16,
    /// The plain-text body, where the answer has one.
    pub body: Option<String>,
    /// Whether the error is reported to the error tracker.
    pub reported: bool,
}

impl RouteError {
    /// The error's message.
    pub open spec fn message(self) -> Seq<char> {
        match self {
            RouteError::Internal(m) => m@,
            RouteError::AuthorizationVerificationError => "failed to authenticate"@,
            RouteError::Unauthorized => "session is not allowed to approve an identity reset"@,
            RouteError::NoSuchUser(id) => "failed to load user "@ + ulid_text(id),
            RouteError::Homeserver(_) => "homeserver refused to open the reset window"@,
        }
    }

    /// Whether the error is a failure on the server's side rather than a
    /// refusal of the caller.
    pub open spec fn is_server_failure(self) -> bool {
        match self {
            RouteError::Internal(_) | RouteError::NoSuchUser(_) | RouteError::Homeserver(_) => true,
            _ => false,
        }
    }

    /// The error's message.
    pub fn to_string(&self) -> (r: String)
        ensures
            r@ == self.message(),
    {
        match self {
            RouteError::Internal(m) => m.clone(),
            RouteError::AuthorizationVerificationError => "failed to authenticate".to_owned(),
            RouteError::Unauthorized => "session is not allowed to approve an identity reset".to_owned(),
            RouteError::NoSuchUser(id) => {
                let mut m = "failed to load user ".to_owned();
                let text = ulid_to_string(*id);
                m.append(text.as_str());
                m
            },
            RouteError::Homeserver(_) => "homeserver refused to open the reset window".to_owned(),
        }
    }

    /// Server failures are reported and answered `500` with the message;
    /// refusals of the caller are answered `401` with no body.
    pub fn into_response(self) -> (r: ErrorResponse)
        ensures
            self.is_server_failure() ==> r.status == 500 && r.reported && r.body is Some
                && r.body->0@ == self.message(),
            !self.is_server_failure() ==> r.status == 401 && !r.reported && r.body is None,
    {
        match self {
            RouteError::Internal(_) | RouteError::NoSuchUser(_) | RouteError::Homeserver(_) => {
                let body = self.to_string();
                ErrorResponse { status: 500, body: Some(body), reported: true }
            },
            RouteError::AuthorizationVerificationError | RouteError::Unauthorized => {
                ErrorResponse { status: 401, body: None, reported: false }
            },
        }
    }
}

/// Whether the scope tokens hold the homeserver API scope.
pub open spec fn has_api_scope(scope: Seq<String>) -> bool {
    exists|i: int| 0 <= i < scope.len() && (#[trigger] scope[i])@ == MATRIX_CLIENT_API_SCOPE@
}

/// The user whose reset an authenticated session may approve: its own user,
/// and only when the session carries the homeserver API scope. Anything else
/// is `Unauthorized`; the caller does not get to name anyone.
pub fn reset_subject(scope: &Vec<String>, user_id: Option<u128>) -> (r: Result<u128, RouteError>)
    ensures
        match r {
            Ok(id) => has_api_scope(scope@) && user_id == Some(id),
            Err(e) => e is Unauthorized && !(has_api_scope(scope@) && user_id is Some),
        },
{
    let mut found = false;
    let mut i: usize = 0;
    while i < scope.len()
        invariant
            i <= scope@.len(),
            found == exists|j: int| 0 <= j < i && (#[trigger] scope@[j])@ == MATRIX_CLIENT_API_SCOPE@,
        decreases scope.len() - i,
    {
        if str_equals(scope[i].as_str(), MATRIX_CLIENT_API_SCOPE) {
            found = true;
        }
        i = i + 1;
    }
    if !found {
        return Err(RouteError::Unauthorized);
    }
    match user_id {
        Some(id) => Ok(id),
        None => Err(RouteError::Unauthorized),
    }
}

/// The username to open the reset for, once the session's user was looked
/// up: a user that is not found is `NoSuchUser`.
pub fn reset_username(user_id: u128, username: Option<String>) -> (r: Result<String, RouteError>)
    ensures
        match r {
            Ok(name) => username == Some(name),
            Err(e) => username is None && e == RouteError::NoSuchUser(user_id),
        },
{
    match username {
        Some(name) => Ok(name),
        None => Err(RouteError::NoSuchUser(user_id)),
    }
}

/// What the reset flow does next: one operation on the token check,
/// activity tracker, repository or homeserver, or the answer.
#[derive(Debug)]
pub enum ResetAction {
    /// Verify the access token and load its session.
    Authenticate,
    /// Record the session's activity; the session's user is `user_id`.
    RecordActivity { user_id: u128 },
    /// Look the user `user_id` up.
    LoadUser { user_id: u128 },
    /// Ask the homeserver to open the cross-signing reset window for
    /// `username`.
    AllowReset { username: String },
    /// Save the repository.
    Save,
    /// Answer: `Ok` with the HTTP status, or the error.
    Finish(Result<u16, RouteError>),
}

/// What came of the last operation of the reset flow.
#[derive(Debug)]
pub enum ResetEvent {
    /// The token verified; its session has these scope tokens and user.
    Authenticated { scope: Vec<String>, user_id: Option<u128> },
    /// The token did not verify.
    AuthenticationFailed,
    /// The activity was recorded.
    ActivityRecorded,
    /// The user lookup found this username, or nobody.
    UserLoaded(Option<String>),
    /// The homeserver opened the reset window.
    HomeserverAccepted,
    /// The homeserver refused, with its message.
    HomeserverRefused(String),
    /// The repository was saved.
    Saved,
    /// A repository operation failed, with its message.
    StorageFailed(String),
}

/// The message of an event that does not answer the operation it follows.
pub open spec fn unexpected_event_message() -> Seq<char> {
    "unexpected event in the identity reset flow"@
}

/// Whether `next` is the answer to an event that does not follow from the
/// operation before it: an internal error with the message above.
pub open spec fn is_unexpected_answer(next: ResetAction) -> bool {
    next matches ResetAction::Finish(Err(RouteError::Internal(m))) && m@ == unexpected_event_message()
}

/// Whether `next` follows `last` given what came of it (`event`): after a
/// verified token, the scope and the user are checked; a refused or failed
/// check, a missing user, a failed repository operation or a homeserver
/// refusal ends the flow with its error; a homeserver acceptance is followed
/// by the save, and a successful save is answered `204`. An answer is final.
pub open spec fn reset_follows(last: ResetAction, event: ResetEvent, next: ResetAction) -> bool {
    match last {
        ResetAction::Authenticate => match event {
            ResetEvent::Authenticated { scope, user_id } => if has_api_scope(scope@) && user_id is Some {
                next == ResetAction::RecordActivity { user_id: user_id->0 }
            } else {
                next == ResetAction::Finish(Err(RouteError::Unauthorized))
            },
            ResetEvent::AuthenticationFailed => next == ResetAction::Finish(
                Err(RouteError::AuthorizationVerificationError),
            ),
            ResetEvent::StorageFailed(m) => next == ResetAction::Finish(Err(RouteError::Internal(m))),
            _ => is_unexpected_answer(next),
        },
        ResetAction::RecordActivity { user_id } => match event {
            ResetEvent::ActivityRecorded => next == ResetAction::LoadUser { user_id },
            _ => is_unexpected_answer(next),
        },
        ResetAction::LoadUser { user_id } => match event {
            ResetEvent::UserLoaded(found) => match found {
                Some(username) => next == ResetAction::AllowReset { username },
                None => next == ResetAction::Finish(Err(RouteError::NoSuchUser(user_id))),
            },
            ResetEvent::StorageFailed(m) => next == ResetAction::Finish(Err(RouteError::Internal(m))),
            _ => is_unexpected_answer(next),
        },
        ResetAction::AllowReset { username: _ } => match event {
            ResetEvent::HomeserverAccepted => next == ResetAction::Save,
            ResetEvent::HomeserverRefused(m) => next == ResetAction::Finish(Err(RouteError::Homeserver(m))),
            _ => is_unexpected_answer(next),
        },
        ResetAction::Save => match event {
            ResetEvent::Saved => next == ResetAction::Finish(Ok(204u16)),
            ResetEvent::StorageFailed(m) => next == ResetAction::Finish(Err(RouteError::Internal(m))),
            _ => is_unexpected_answer(next),
        },
        ResetAction::Finish(answer) => next == ResetAction::Finish(answer),
    }
}

/// The first operation of the reset flow.
pub fn first_reset_action() -> (r: ResetAction)
    ensures
        (r is Authenticate),
{
    ResetAction::Authenticate
}

fn copy_answer(answer: &Result<u16, RouteError>) -> (r: Result<u16, RouteError>)
    ensures
        r == *answer,
{
    match answer {
        Ok(status) => Ok(*status),
        Err(e) => Err(
            match e {
                RouteError::Internal(m) => RouteError::Internal(m.clone()),
                RouteError::AuthorizationVerificationError => RouteError::AuthorizationVerificationError,
                RouteError::Unauthorized => RouteError::Unauthorized,
                RouteError::NoSuchUser(id) => RouteError::NoSuchUser(*id),
                RouteError::Homeserver(m) => RouteError::Homeserver(m.clone()),
            },
        ),
    }
}

fn unexpected() -> (r: ResetAction)
    ensures
        is_unexpected_answer(r),
{
    ResetAction::Finish(Err(RouteError::Internal("unexpected event in the identity reset flow".to_owned())))
}

/// The operation that follows `last` given what came of it. A failed token
/// check is `AuthorizationVerificationError`; a session without the API
/// scope or without a user is `Unauthorized`; a missing user is `NoSuchUser`;
/// a homeserver refusal is `Homeserver`, and no save follows it; a failed
/// repository operation is `Internal`; a successful save is answered `204`.
pub fn next_reset_action(last: &ResetAction, event: ResetEvent) -> (r: ResetAction)
    ensures
        reset_follows(*last, event, r),
{
    match last {
        ResetAction::Authenticate => match event {
            ResetEvent::Authenticated { scope, user_id } => match reset_subject(&scope, user_id) {
                Ok(id) => ResetAction::RecordActivity { user_id: id },
                Err(_) => ResetAction::Finish(Err(RouteError::Unauthorized)),
            },
            ResetEvent::AuthenticationFailed => ResetAction::Finish(
                Err(RouteError::AuthorizationVerificationError),
            ),
            ResetEvent::StorageFailed(m) => ResetAction::Finish(Err(RouteError::Internal(m))),
            _ => unexpected(),
        },
        ResetAction::RecordActivity { user_id } => match event {
            ResetEvent::ActivityRecorded => ResetAction::LoadUser { user_id: *user_id },
            _ => unexpected(),
        },
        ResetAction::LoadUser { user_id } => match event {
            ResetEvent::UserLoaded(found) => match reset_username(*user_id, found) {
                Ok(username) => ResetAction::AllowReset { username },
                Err(e) => ResetAction::Finish(Err(e)),
            },
            ResetEvent::StorageFailed(m) => ResetAction::Finish(Err(RouteError::Internal(m))),
            _ => unexpected(),
        },
        ResetAction::AllowReset { username: _ } => match event {
            ResetEvent::HomeserverAccepted => ResetAction::Save,
            ResetEvent::HomeserverRefused(m) => ResetAction::Finish(Err(RouteError::Homeserver(m))),
            _ => unexpected(),
        },
        ResetAction::Save => match event {
            ResetEvent::Saved => ResetAction::Finish(Ok(204)),
            ResetEvent::StorageFailed(m) => ResetAction::Finish(Err(RouteError::Internal(m))),
            _ => unexpected(),
        },
        ResetAction::Finish(answer) => ResetAction::Finish(copy_answer(answer)),
    }
}

/// Whether `event` is a verified session with the API scope whose user is
/// `user_id`.
pub open spec fn authenticated_as(event: ResetEvent, user_id: u128) -> bool {
    match event {
        ResetEvent::Authenticated { scope, user_id: u } => has_api_scope(scope@) && u == Some(user_id),
        _ => false,
    }
}

/// Whether `next` answers with a homeserver refusal.
pub open spec fn answers_homeserver_refusal(next: ResetAction) -> bool {
    match next {
        ResetAction::Finish(Err(RouteError::Homeserver(_))) => true,
        _ => false,
    }
}

/// The reset flow's guarantees, one step at a time: the homeserver is asked
/// to open the window only for the username that the lookup of the session's
/// own user found; the save follows only the homeserver's acceptance, and a
/// refusal is answered as such with no save; `204` answers only a successful
/// save; the user is looked up only after a verified session with the API
/// scope and a user, and only that user; a failed token check is answered
/// `AuthorizationVerificationError`.
pub proof fn reset_flow_laws(last: ResetAction, event: ResetEvent, next: ResetAction)
    requires
        reset_follows(last, event, next),
    ensures
        (next is AllowReset) ==> (last is LoadUser && event == ResetEvent::UserLoaded(
            Some(next->username),
        )),
        (next is Save) ==> (last is AllowReset && event is HomeserverAccepted),
        (next == ResetAction::Finish(Ok(204u16))) ==> ((last is Save && event is Saved) || last == next),
        (next is RecordActivity) ==> (last is Authenticate && authenticated_as(
            event,
            next->RecordActivity_user_id,
        )),
        (next is LoadUser) ==> (last is RecordActivity && last->RecordActivity_user_id
            == next->LoadUser_user_id),
        (last is AllowReset && event is HomeserverRefused) ==> answers_homeserver_refusal(next),
        (last is Authenticate && event is AuthenticationFailed) ==> (next == ResetAction::Finish(
            Err(RouteError::AuthorizationVerificationError),
        )),
        (last is Save && event is Saved) ==> (next == ResetAction::Finish(Ok(204u16))),
        (last is AllowReset && event is HomeserverAccepted) ==> (next is Save),
        (last is LoadUser && event == ResetEvent::UserLoaded(None)) ==> (next == ResetAction::Finish(
            Err(RouteError::NoSuchUser(last->LoadUser_user_id)),
        )),
        (last is Finish) ==> (next == last),
{
    reveal_strlit("unexpected event in the identity reset flow");
}

/// A session carries the homeserver API scope exactly when one of its scope
/// tokens, at any position, is `urn:matrix:org.matrix.msc2967.client:api:*`;
/// so the order of the tokens, and any other tokens beside it, do not matter.
pub proof fn api_scope_is_found_anywhere(a: Seq<String>, b: Seq<String>, token: String)
    ensures
        has_api_scope(a) <==> exists|i: int|
            0 <= i < a.len() && (#[trigger] a[i])@ == "urn:matrix:org.matrix.msc2967.client:api:*"@,
        has_api_scope(a + b) == has_api_scope(b + a),
        has_api_scope(a + b) <==> has_api_scope(a) || has_api_scope(b),
        token@ == "urn:matrix:org.matrix.msc2967.client:api:*"@ ==> has_api_scope(
            a.push(token) + b,
        ),
{
    let ab = a + b;
    let ba = b + a;
    if has_api_scope(ab) {
        let i = choose|i: int| 0 <= i < ab.len() && (#[trigger] ab[i])@ == MATRIX_CLIENT_API_SCOPE@;
        if i < a.len() {
            assert(ab[i] == a[i]);
            assert(ba[b.len() + i] == a[i]);
        } else {
            assert(ab[i] == b[i - a.len()]);
            assert(ba[i - a.len()] == b[i - a.len()]);
        }
    }
    if has_api_scope(ba) {
        let i = choose|i: int| 0 <= i < ba.len() && (#[trigger] ba[i])@ == MATRIX_CLIENT_API_SCOPE@;
        if i < b.len() {
            assert(ba[i] == b[i]);
            assert(ab[a.len() + i] == b[i]);
        } else {
            assert(ba[i] == a[i - b.len()]);
            assert(ab[i - b.len()] == a[i - b.len()]);
        }
    }
    if has_api_scope(a) {
        let i = choose|i: int| 0 <= i < a.len() && (#[trigger] a[i])@ == MATRIX_CLIENT_API_SCOPE@;
        assert(ab[i] == a[i]);
    }
    if has_api_scope(b) {
        let i = choose|i: int| 0 <= i < b.len() && (#[trigger] b[i])@ == MATRIX_CLIENT_API_SCOPE@;
        assert(ab[a.len() + i] == b[i]);
    }
    if token@ == MATRIX_CLIENT_API_SCOPE@ {
        let c = a.push(token) + b;
        assert(c[a.len() as int] == token);
    }
}

/// An authenticated session with the API scope among its tokens and a user
/// may approve the reset for that user, whatever its other tokens; without
/// the API scope among its tokens, or without a user, it may not.
pub proof fn reset_subject_law(scope: Seq<String>, user_id: Option<u128>, r: Result<u128, RouteError>, i: int)
    requires
        match r {
            Ok(id) => has_api_scope(scope) && user_id == Some(id),
            Err(e) => e is Unauthorized && !(has_api_scope(scope) && user_id is Some),
        },
    ensures
        0 <= i < scope.len() && scope[i]@ == "urn:matrix:org.matrix.msc2967.client:api:*"@
            && user_id is Some ==> r == Ok::<u128, RouteError>(user_id->0),
        (forall|j: int|
            0 <= j < scope.len() ==> (#[trigger] scope[j])@
                != "urn:matrix:org.matrix.msc2967.client:api:*"@) ==> r
            == Err::<u128, RouteError>(RouteError::Unauthorized),
        user_id is None ==> r == Err::<u128, RouteError>(RouteError::Unauthorized),
{
    if 0 <= i < scope.len() && scope[i]@ == MATRIX_CLIENT_API_SCOPE@ {
        assert(has_api_scope(scope));
    }
}

} // verus!
