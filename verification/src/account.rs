//! The account page's user check: which user the app says it is signed in
//! as, and what the page does when the browser session belongs to someone
//! else.
use vstd::prelude::*;
use crate::text::{ends_with, has_prefix, has_suffix, opt_str_view, opt_string_view, starts_with, str_equals};

verus! {

/// The account-management action that the app asks the page to perform, as
/// far as the user check reads it.
#[derive(Debug, Clone)]
pub enum AccountAction {
    /// Approve a cross-signing reset; the app may name the user it is
    /// signed in as, and where to return afterwards.
    OrgMatrixCrossSigningReset { gua_return: Option<String>, gua_user: Option<String> },
    /// Any other action; the user check reads nothing of it.
    Other,
}

/// The query parameters of the account page.
#[derive(Debug, Clone)]
pub struct Params {
    pub action: Option<AccountAction>,
    /// The MSC4198 login hint.
    pub unstable_login_hint: Option<String>,
}

/// The prefix of an `mxid:` login hint.
pub open spec fn mxid_prefix() -> Seq<char> {
    seq!['m', 'x', 'i', 'd', ':', '@']
}

/// The `mxid:` login hint for the localpart `localpart` on `homeserver`:
/// `mxid:@{localpart}:{homeserver}`.
pub open spec fn mxid_hint(localpart: Seq<char>, homeserver: Seq<char>) -> Seq<char> {
    mxid_prefix() + localpart + seq![':'] + homeserver
}

/// The non-empty user that the action names, if any.
pub open spec fn action_user(action: Option<AccountAction>) -> Option<Seq<char>> {
    match action {
        Some(AccountAction::OrgMatrixCrossSigningReset { gua_return: _, gua_user: Some(user) }) => if user@.len() > 0 {
            Some(user@)
        } else {
            None
        },
        _ => None,
    }
}

/// The localpart that an `mxid:@{localpart}:{homeserver}` hint names, if the
/// hint has that shape for `homeserver` and the localpart is not empty.
pub open spec fn hint_localpart(hint: Seq<char>, homeserver: Seq<char>) -> Option<Seq<char>> {
    let rest = hint.skip(6);
    let suffix = seq![':'] + homeserver;
    if has_prefix(hint, mxid_prefix()) && has_suffix(rest, suffix) && rest.len() > suffix.len() {
        Some(rest.take(rest.len() - suffix.len()))
    } else {
        None
    }
}

/// Which localpart the app says it is signed in as: the user carried in the
/// action where it names one, otherwise an `mxid:` hint on `homeserver`.
pub open spec fn expected_user_of(
    action: Option<AccountAction>,
    login_hint: Option<Seq<char>>,
    homeserver: Seq<char>,
) -> Option<Seq<char>> {
    match action_user(action) {
        Some(user) => Some(user),
        None => match login_hint {
            Some(hint) => hint_localpart(hint, homeserver),
            None => None,
        },
    }
}

/// The action behind an optional reference.
pub open spec fn deref_action(action: Option<&AccountAction>) -> Option<AccountAction> {
    match action {
        Some(a) => Some(*a),
        None => None,
    }
}

/// Which localpart, if any, the app says it is signed in as.
///
/// Prefers the name carried inside the action, since that one survives a login
/// round trip; otherwise an `mxid:` MSC4198 hint on our own homeserver.
/// Anything else is ignored, so a foreign or malformed hint can never lock a
/// legitimate session out.
pub fn expected_user(action: Option<&AccountAction>, login_hint: Option<&str>, homeserver: &str) -> (r:
    Option<String>)
    ensures
        match r {
            Some(u) => expected_user_of(deref_action(action), opt_str_view(login_hint), homeserver@)
                == Some(u@),
            None => expected_user_of(deref_action(action), opt_str_view(login_hint), homeserver@) is None,
        },
{
    if let Some(AccountAction::OrgMatrixCrossSigningReset { gua_return: _, gua_user: Some(user) }) = action {
        if !user.as_str().is_empty() {
            return Some(user.clone());
        }
    }
    let hint = match login_hint {
        Some(h) => h,
        None => return None,
    };
    proof {
        reveal_strlit("mxid:@");
        assert("mxid:@"@ =~= mxid_prefix());
    }
    if !starts_with(hint, "mxid:@") {
        return None;
    }
    let n = hint.unicode_len();
    let rest = hint.substring_char(6, n);
    assert(rest@ =~= hint@.skip(6));
    let mut suffix = ":".to_owned();
    suffix.append(homeserver);
    proof {
        reveal_strlit(":");
        assert(suffix@ =~= seq![':'] + homeserver@);
    }
    if !ends_with(rest, suffix.as_str()) {
        return None;
    }
    let rest_len = n - 6;
    let suffix_len = suffix.as_str().unicode_len();
    if rest_len <= suffix_len {
        return None;
    }
    let localpart = rest.substring_char(0, rest_len - suffix_len);
    assert(localpart@ =~= rest@.take(rest@.len() - suffix@.len()));
    Some(localpart.to_owned())
}

/// The login hint to send with a forced fresh login for `expected`: the
/// app's own hint where it gave one, otherwise `mxid:@{expected}:{homeserver}`.
pub fn forced_login_hint(unstable_login_hint: Option<String>, expected: &str, homeserver: &str) -> (r:
    String)
    ensures
        r@ == match unstable_login_hint {
            Some(h) => h@,
            None => mxid_hint(expected@, homeserver@),
        },
{
    match unstable_login_hint {
        Some(h) => h,
        None => {
            let mut hint = "mxid:@".to_owned();
            hint.append(expected);
            hint.append(":");
            hint.append(homeserver);
            proof {
                reveal_strlit("mxid:@");
                reveal_strlit(":");
                assert(hint@ =~= mxid_hint(expected@, homeserver@));
            }
            hint
        },
    }
}

/// The hint that names `localpart` on `homeserver` reads back as that
/// localpart, whenever the localpart is not empty.
pub proof fn mxid_hint_names_its_localpart(localpart: Seq<char>, homeserver: Seq<char>)
    requires
        localpart.len() > 0,
    ensures
        hint_localpart(mxid_hint(localpart, homeserver), homeserver) == Some(localpart),
{
    let hint = mxid_hint(localpart, homeserver);
    let rest = hint.skip(6);
    let suffix = seq![':'] + homeserver;
    assert(hint.take(6) =~= mxid_prefix());
    assert(rest =~= localpart + suffix);
    assert(rest.skip(rest.len() - suffix.len()) =~= suffix);
    assert(rest.take(rest.len() - suffix.len()) =~= localpart);
}

/// What the account page does for a request.
#[allow(inconsistent_fields)]
#[derive(Debug, Clone)]
pub enum AccountPageOutcome {
    /// There is no browser session: log in, with the app's hint if it gave
    /// one, and come back to the action.
    Login { login_hint: Option<String> },
    /// The browser session belongs to another user than the one the app
    /// named: end that session and log in afresh as `expected`, with
    /// `login_hint`, forcing the login.
    ForceLogin { expected: String, login_hint: String },
    /// Render the account page for the session's user.
    Render,
}

/// What the account page does for the query `params`, given the user name
/// of the browser session, if there is one.
pub open spec fn account_page_outcome_of(
    action: Option<AccountAction>,
    unstable_login_hint: Option<Seq<char>>,
    homeserver: Seq<char>,
    session_username: Option<Seq<char>>,
    outcome: AccountPageOutcome,
) -> bool {
    match session_username {
        None => match outcome {
            AccountPageOutcome::Login { login_hint } => match login_hint {
                Some(h) => unstable_login_hint == Some(h@),
                None => unstable_login_hint is None,
            },
            _ => false,
        },
        Some(username) => match expected_user_of(action, unstable_login_hint, homeserver) {
            Some(expected) => if expected != username {
                match outcome {
                    AccountPageOutcome::ForceLogin { expected: e, login_hint } => {
                        &&& e@ == expected
                        &&& login_hint@ == match unstable_login_hint {
                            Some(h) => h,
                            None => mxid_hint(expected, homeserver),
                        }
                    },
                    _ => false,
                }
            } else {
                outcome is Render
            },
            None => outcome is Render,
        },
    }
}

/// Decides what the account page does. Without a browser session it sends
/// the browser to log in. With one, when the app names its user (through the
/// MSC4198 login hint or inside the action itself) and the session disagrees,
/// the session is treated as absent and a fresh login is forced for the named
/// user. The name is only ever used to refuse, never to grant.
pub fn account_page_outcome(params: &Params, homeserver: &str, session_username: Option<&str>) -> (r:
    AccountPageOutcome)
    ensures
        account_page_outcome_of(
            params.action,
            opt_string_view(params.unstable_login_hint),
            homeserver@,
            opt_str_view(session_username),
            r,
        ),
{
    let username = match session_username {
        Some(u) => u,
        None => {
            return AccountPageOutcome::Login { login_hint: params.unstable_login_hint.clone() };
        },
    };
    let hint: Option<&str> = match &params.unstable_login_hint {
        Some(h) => Some(h.as_str()),
        None => None,
    };
    assert(opt_str_view(hint) == opt_string_view(params.unstable_login_hint));
    let action: Option<&AccountAction> = match &params.action {
        Some(a) => Some(a),
        None => None,
    };
    assert(deref_action(action) == params.action);
    let expected = expected_user(action, hint, homeserver);
    match expected {
        Some(expected) => if str_equals(expected.as_str(), username) {
            AccountPageOutcome::Render
        } else {
            let login_hint = forced_login_hint(params.unstable_login_hint.clone(), expected.as_str(), homeserver);
            AccountPageOutcome::ForceLogin { expected, login_hint }
        },
        None => AccountPageOutcome::Render,
    }
}

/// The account page renders only for a browser session whose user is the one
/// the app named, or when the app named nobody; it never renders without a
/// session.
pub proof fn account_page_renders_only_for_the_named_user(
    action: Option<AccountAction>,
    unstable_login_hint: Option<Seq<char>>,
    homeserver: Seq<char>,
    session_username: Option<Seq<char>>,
    outcome: AccountPageOutcome,
)
    requires
        account_page_outcome_of(action, unstable_login_hint, homeserver, session_username, outcome),
        outcome is Render,
    ensures
        session_username is Some,
        expected_user_of(action, unstable_login_hint, homeserver) is None
            || expected_user_of(action, unstable_login_hint, homeserver) == session_username,
{
}

/// A named user can only refuse a session, never grant one: with a browser
/// session whose user is the one named, or when nobody is named, the page
/// answers as it would for a request that names nobody at all.
pub proof fn named_user_never_grants(
    action: Option<AccountAction>,
    unstable_login_hint: Option<Seq<char>>,
    homeserver: Seq<char>,
    username: Seq<char>,
    outcome: AccountPageOutcome,
)
    requires
        account_page_outcome_of(action, unstable_login_hint, homeserver, Some(username), outcome),
        expected_user_of(action, unstable_login_hint, homeserver) is None || expected_user_of(
            action,
            unstable_login_hint,
            homeserver,
        ) == Some(username),
    ensures
        outcome is Render,
        account_page_outcome_of(None, None, homeserver, Some(username), outcome),
{
}

/// A forced fresh login keeps asking for the same user: with the same action
/// and the hint it is sent with, the user check names the same user again.
pub proof fn forced_login_names_the_same_user(
    action: Option<AccountAction>,
    unstable_login_hint: Option<Seq<char>>,
    homeserver: Seq<char>,
    expected: Seq<char>,
)
    requires
        expected_user_of(action, unstable_login_hint, homeserver) == Some(expected),
    ensures
        expected_user_of(
            action,
            Some(
                match unstable_login_hint {
                    Some(h) => h,
                    None => mxid_hint(expected, homeserver),
                },
            ),
            homeserver,
        ) == Some(expected),
{
}

/// A hint that is not an `mxid:` hint on our homeserver names nobody, so,
/// when the action names nobody either, it never refuses a session.
pub proof fn foreign_hint_names_nobody(action: Option<AccountAction>, hint: Seq<char>, homeserver: Seq<char>)
    requires
        action_user(action) is None,
        hint_localpart(hint, homeserver) is None,
    ensures
        expected_user_of(action, Some(hint), homeserver) is None,
{
}

/// The user that a cross-signing-reset action names, when it is not empty,
/// is the expected user, whatever return target the action carries and
/// whatever login hint comes with it.
pub proof fn action_user_wins(
    gua_return: Option<String>,
    user: String,
    login_hint: Option<Seq<char>>,
    homeserver: Seq<char>,
)
    requires
        user@.len() > 0,
    ensures
        expected_user_of(
            Some(AccountAction::OrgMatrixCrossSigningReset { gua_return, gua_user: Some(user) }),
            login_hint,
            homeserver,
        ) == Some(user@),
{
}

/// The action is absent, another action, or a cross-signing reset that names
/// no user or an empty one.
pub open spec fn action_names_nobody(action: Option<AccountAction>) -> bool {
    match action {
        Some(AccountAction::OrgMatrixCrossSigningReset { gua_return: _, gua_user: Some(u) }) => u@.len() == 0,
        _ => true,
    }
}

/// Without a non-empty user in the action, the expected user is what the
/// login hint names: exactly the localpart `l` of a hint
/// `mxid:@{l}:{homeserver}` with `l` not empty, and nobody for any other hint
/// or no hint.
pub proof fn hint_names_exactly_its_localpart(
    action: Option<AccountAction>,
    hint: Seq<char>,
    homeserver: Seq<char>,
    localpart: Seq<char>,
)
    requires
        action_names_nobody(action),
    ensures
        expected_user_of(action, None, homeserver) is None,
        localpart.len() > 0 ==> expected_user_of(
            action,
            Some(seq!['m', 'x', 'i', 'd', ':', '@'] + localpart + seq![':'] + homeserver),
            homeserver,
        ) == Some(localpart),
        expected_user_of(action, Some(hint), homeserver) == Some(localpart) ==> {
            &&& localpart.len() > 0
            &&& hint == seq!['m', 'x', 'i', 'd', ':', '@'] + localpart + seq![':'] + homeserver
        },
{
    if localpart.len() > 0 {
        mxid_hint_names_its_localpart(localpart, homeserver);
        assert(mxid_hint(localpart, homeserver) == seq!['m', 'x', 'i', 'd', ':', '@'] + localpart
            + seq![':'] + homeserver);
    }
    if expected_user_of(action, Some(hint), homeserver) == Some(localpart) {
        let rest = hint.skip(6);
        let suffix = seq![':'] + homeserver;
        assert(hint.take(6) == mxid_prefix());
        assert(rest.skip(rest.len() - suffix.len()) == suffix);
        assert(localpart == rest.take(rest.len() - suffix.len()));
        assert(hint =~= seq!['m', 'x', 'i', 'd', ':', '@'] + localpart + seq![':'] + homeserver) by {
            assert(hint =~= hint.take(6) + rest);
            assert(rest =~= rest.take(rest.len() - suffix.len()) + rest.skip(rest.len() - suffix.len()));
        }
    }
}

/// Without a browser session the page sends the browser to log in, passing
/// on the app's login hint as it is, whatever its shape, or no hint when the
/// app gave none.
pub proof fn login_passes_the_hint_on(
    action: Option<AccountAction>,
    unstable_login_hint: Option<Seq<char>>,
    homeserver: Seq<char>,
    outcome: AccountPageOutcome,
)
    requires
        account_page_outcome_of(action, unstable_login_hint, homeserver, None, outcome),
    ensures
        outcome is Login,
        match outcome->Login_login_hint {
            Some(h) => unstable_login_hint == Some(h@),
            None => unstable_login_hint is None,
        },
{
}

/// With a browser session the page never merely sends the browser to log
/// in: it renders, or it forces a fresh login for another user.
pub proof fn session_is_never_sent_to_plain_login(
    action: Option<AccountAction>,
    unstable_login_hint: Option<Seq<char>>,
    homeserver: Seq<char>,
    username: Seq<char>,
    outcome: AccountPageOutcome,
)
    requires
        account_page_outcome_of(action, unstable_login_hint, homeserver, Some(username), outcome),
    ensures
        !(outcome is Login),
        (outcome is ForceLogin) <==> (expected_user_of(action, unstable_login_hint, homeserver) is Some
            && expected_user_of(action, unstable_login_hint, homeserver) != Some(username)),
{
}

/// A forced fresh login carries the app's own login hint whenever the app
/// gave one, whatever its shape; only without one is it
/// `mxid:@{expected}:{homeserver}`. The forced login is for the user that the
/// app named, and never for the session's own user.
pub proof fn forced_login_carries_the_apps_hint(
    action: Option<AccountAction>,
    unstable_login_hint: Option<Seq<char>>,
    homeserver: Seq<char>,
    username: Seq<char>,
    outcome: AccountPageOutcome,
)
    requires
        account_page_outcome_of(action, unstable_login_hint, homeserver, Some(username), outcome),
        outcome is ForceLogin,
    ensures
        expected_user_of(action, unstable_login_hint, homeserver) == Some(outcome->expected@),
        outcome->expected@ != username,
        unstable_login_hint is Some ==> outcome->ForceLogin_login_hint@ == unstable_login_hint->0,
        unstable_login_hint is None ==> outcome->ForceLogin_login_hint@ == seq![
            'm',
            'x',
            'i',
            'd',
            ':',
            '@',
        ] + outcome->expected@ + seq![':'] + homeserver,
{
}

} // verus!
