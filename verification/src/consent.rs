//! Skipping the consent screen for first-party clients: which clients skip
//! it, and the order in which an authorization grant is then fulfilled.
use vstd::prelude::*;

verus! {

/// Returns `true` when the consent screen should be skipped for this client,
/// that is when its ULID (as its 128-bit value) is one of `skip_ids`.
pub fn should_skip_consent(client_id: u128, skip_ids: &[u128]) -> (r: bool)
    ensures
        r == skip_ids@.contains(client_id),
{
    let mut i: usize = 0;
    while i < skip_ids.len()
        invariant
            i <= skip_ids@.len(),
            forall|j: int| 0 <= j < i ==> skip_ids@[j] != client_id,
        decreases skip_ids.len() - i,
    {
        if skip_ids[i] == client_id {
            assert(skip_ids@[i as int] == client_id);
            return true;
        }
        i = i + 1;
    }
    false
}

/// One step of fulfilling an authorization grant without the consent screen.
/// Each step is an operation on the repository, the keystore or the
/// response; any failure ends the whole with that error.
#[derive(Debug, Clone, Copy, PartialEq, Eq, Structural)]
pub enum AutoFulfillStep {
    /// Work out where the client's callback goes from the grant.
    ResolveCallback,
    /// Open an OAuth 2.0 session from the browser session, with the grant's scope.
    AddSession,
    /// Mark the grant fulfilled by that session.
    FulfillGrant,
    /// Load the browser session's last authentication.
    LoadLastAuthentication,
    /// Sign an ID token for the client.
    GenerateIdToken,
    /// Save the repository.
    Save,
    /// Record the session's activity.
    RecordActivity,
    /// Redirect the browser to the client callback with the code and ID token.
    Respond,
}

/// The steps, in order, for a grant that does or does not ask for an ID token.
pub open spec fn auto_fulfill_plan(response_type_id_token: bool) -> Seq<AutoFulfillStep> {
    if response_type_id_token {
        seq![
            AutoFulfillStep::ResolveCallback,
            AutoFulfillStep::AddSession,
            AutoFulfillStep::FulfillGrant,
            AutoFulfillStep::LoadLastAuthentication,
            AutoFulfillStep::GenerateIdToken,
            AutoFulfillStep::Save,
            AutoFulfillStep::RecordActivity,
            AutoFulfillStep::Respond,
        ]
    } else {
        seq![
            AutoFulfillStep::ResolveCallback,
            AutoFulfillStep::AddSession,
            AutoFulfillStep::FulfillGrant,
            AutoFulfillStep::Save,
            AutoFulfillStep::RecordActivity,
            AutoFulfillStep::Respond,
        ]
    }
}

/// The step that follows `step` once it has succeeded, given whether the
/// fulfilled grant asks for an ID token; `None` after the response. The
/// ID-token steps, wherever they stand, lead on as in the ID-token plan.
pub fn next_auto_fulfill_step(step: AutoFulfillStep, response_type_id_token: bool) -> (r: Option<
    AutoFulfillStep,
>)
    ensures
        forall|i: int|
            0 <= i < auto_fulfill_plan(response_type_id_token).len()
                && #[trigger] auto_fulfill_plan(response_type_id_token)[i] == step ==> r == if i + 1
                < auto_fulfill_plan(response_type_id_token).len() {
                Some(auto_fulfill_plan(response_type_id_token)[i + 1])
            } else {
                None::<AutoFulfillStep>
            },
        !auto_fulfill_plan(response_type_id_token).contains(step) ==> forall|i: int|
            0 <= i < auto_fulfill_plan(true).len() && #[trigger] auto_fulfill_plan(true)[i] == step
                ==> r == Some(auto_fulfill_plan(true)[i + 1]),
{
    match step {
        AutoFulfillStep::ResolveCallback => Some(AutoFulfillStep::AddSession),
        AutoFulfillStep::AddSession => Some(AutoFulfillStep::FulfillGrant),
        AutoFulfillStep::FulfillGrant => if response_type_id_token {
            Some(AutoFulfillStep::LoadLastAuthentication)
        } else {
            Some(AutoFulfillStep::Save)
        },
        AutoFulfillStep::LoadLastAuthentication => Some(AutoFulfillStep::GenerateIdToken),
        AutoFulfillStep::GenerateIdToken => Some(AutoFulfillStep::Save),
        AutoFulfillStep::Save => Some(AutoFulfillStep::RecordActivity),
        AutoFulfillStep::RecordActivity => Some(AutoFulfillStep::Respond),
        AutoFulfillStep::Respond => None,
    }
}

/// What follows a step of fulfilling a grant.
#[derive(Debug, Clone, Copy, PartialEq, Eq, Structural)]
pub enum AutoFulfillNext {
    /// Run this step.
    Run(AutoFulfillStep),
    /// Stop and answer with the error of the step that failed; nothing after
    /// it runs.
    Stop,
    /// The response was sent; nothing is left.
    Done,
}

/// What follows `step` once it has run: a failed step stops the whole with
/// its error, so nothing after it runs; a successful one leads on as the plan
/// says, and the response ends it.
pub fn auto_fulfill_next(step: AutoFulfillStep, step_failed: bool, response_type_id_token: bool) -> (r:
    AutoFulfillNext)
    ensures
        step_failed ==> r == AutoFulfillNext::Stop,
        !step_failed ==> forall|i: int|
            0 <= i < auto_fulfill_plan(response_type_id_token).len()
                && #[trigger] auto_fulfill_plan(response_type_id_token)[i] == step ==> r == if i + 1
                < auto_fulfill_plan(response_type_id_token).len() {
                AutoFulfillNext::Run(auto_fulfill_plan(response_type_id_token)[i + 1])
            } else {
                AutoFulfillNext::Done
            },
        !step_failed && !auto_fulfill_plan(response_type_id_token).contains(step) ==> forall|i: int|
            0 <= i < auto_fulfill_plan(true).len() && #[trigger] auto_fulfill_plan(true)[i] == step
                ==> r == AutoFulfillNext::Run(auto_fulfill_plan(true)[i + 1]),
{
    if step_failed {
        return AutoFulfillNext::Stop;
    }
    match next_auto_fulfill_step(step, response_type_id_token) {
        Some(next) => AutoFulfillNext::Run(next),
        None => AutoFulfillNext::Done,
    }
}

/// A run that fails at the `i`-th step of the plan has run exactly the steps
/// up to it. When that step comes before the save, nothing was saved and no
/// activity recorded; when the callback could not be resolved, no session
/// was opened either.
pub proof fn failed_auto_fulfill_commits_nothing(response_type_id_token: bool, i: int)
    requires
        0 <= i < auto_fulfill_plan(response_type_id_token).len(),
        auto_fulfill_plan(response_type_id_token)[i] != AutoFulfillStep::Save,
        auto_fulfill_plan(response_type_id_token)[i] != AutoFulfillStep::RecordActivity,
        auto_fulfill_plan(response_type_id_token)[i] != AutoFulfillStep::Respond,
    ensures
        !auto_fulfill_plan(response_type_id_token).take(i + 1).contains(AutoFulfillStep::Save),
        !auto_fulfill_plan(response_type_id_token).take(i + 1).contains(
            AutoFulfillStep::RecordActivity,
        ),
        i == 0 ==> !auto_fulfill_plan(response_type_id_token).take(i + 1).contains(
            AutoFulfillStep::AddSession,
        ),
{
    let p = auto_fulfill_plan(response_type_id_token);
    let ran = p.take(i + 1);
    assert(i < p.len() - 3);
    assert forall|j: int| 0 <= j < ran.len() implies ran[j] != AutoFulfillStep::Save && ran[j]
        != AutoFulfillStep::RecordActivity && (i == 0 ==> ran[j] != AutoFulfillStep::AddSession) by {
        assert(ran[j] == p[j]);
    }
}

/// The first step.
pub fn first_auto_fulfill_step() -> (r: AutoFulfillStep)
    ensures
        r == auto_fulfill_plan(true)[0],
        r == auto_fulfill_plan(false)[0],
{
    AutoFulfillStep::ResolveCallback
}

/// Fulfilling a grant touches the keystore (for an ID token) exactly when the
/// grant asks for one, always fulfils the grant before saving, and saves the
/// repository before recording activity and before answering the browser.
pub proof fn auto_fulfill_plan_laws(response_type_id_token: bool)
    ensures
        auto_fulfill_plan(response_type_id_token).contains(AutoFulfillStep::GenerateIdToken)
            <==> response_type_id_token,
        auto_fulfill_plan(response_type_id_token).contains(AutoFulfillStep::LoadLastAuthentication)
            <==> response_type_id_token,
        auto_fulfill_plan(response_type_id_token)[2] == AutoFulfillStep::FulfillGrant,
        auto_fulfill_plan(response_type_id_token).last() == AutoFulfillStep::Respond,
        forall|i: int, j: int|
            0 <= i < auto_fulfill_plan(response_type_id_token).len() && 0 <= j
                < auto_fulfill_plan(response_type_id_token).len() && #[trigger] auto_fulfill_plan(
                response_type_id_token,
            )[i] == AutoFulfillStep::Save && #[trigger] auto_fulfill_plan(
                response_type_id_token,
            )[j] == AutoFulfillStep::RecordActivity ==> i < j,
{
    let p = auto_fulfill_plan(response_type_id_token);
    if response_type_id_token {
        assert(p[4] == AutoFulfillStep::GenerateIdToken);
        assert(p[3] == AutoFulfillStep::LoadLastAuthentication);
    } else {
        assert forall|i: int| 0 <= i < p.len() implies p[i] != AutoFulfillStep::GenerateIdToken
            && p[i] != AutoFulfillStep::LoadLastAuthentication by {}
    }
}

/// The parameters of the authorization response that the browser carries
/// back to the client callback.
#[derive(Debug, Clone, PartialEq, Eq)]
pub struct AuthorizationResponseParams {
    /// The authorization code.
    pub code: Option<String>,
    /// The signed ID token.
    pub id_token: Option<String>,
}

/// The response parameters once the grant is fulfilled: the fulfilled
/// grant's authorization code, if it has one, and the ID token signed for it
/// where the grant asks for one (`response_type_id_token`); no ID token
/// otherwise.
pub fn auto_fulfill_response(
    response_type_id_token: bool,
    grant_code: Option<String>,
    signed_id_token: Option<String>,
) -> (r: AuthorizationResponseParams)
    ensures
        r.code == grant_code,
        r.id_token == if response_type_id_token {
            signed_id_token
        } else {
            None::<String>
        },
{
    let id_token = if response_type_id_token {
        signed_id_token
    } else {
        None
    };
    AuthorizationResponseParams { code: grant_code, id_token }
}

/// When an ID token is signed whenever the grant asks for one (the plan's
/// signing step), the response carries an ID token exactly when the grant
/// asks for one, and always the grant's own code.
pub proof fn auto_fulfill_response_law(
    response_type_id_token: bool,
    grant_code: Option<String>,
    signed_id_token: Option<String>,
    r: AuthorizationResponseParams,
)
    requires
        response_type_id_token ==> signed_id_token is Some,
        r.code == grant_code,
        r.id_token == if response_type_id_token {
            signed_id_token
        } else {
            None::<String>
        },
    ensures
        r.id_token is Some <==> response_type_id_token,
        r.code == grant_code,
{
}

} // verus!
