//! Which claims of an upstream identity are imported into the local account,
//! and how.
use vstd::prelude::*;

verus! {

/// What to do with one claim of the upstream identity.
#[derive(Debug, Clone, Copy, PartialEq, Eq, Structural)]
pub enum ImportAction {
    /// Ignore the claim
    Ignore,
    /// Suggest the claim value, but allow the user to change it
    Suggest,
    /// Force the claim value, but don't fail if it is missing
    Force,
    /// Force the claim value, and fail if it is missing
    Require,
}

impl ImportAction {
    pub fn is_forced_or_required(&self) -> (r: bool)
        ensures
            r == (*self == ImportAction::Force || *self == ImportAction::Require),
    {
        match self {
            ImportAction::Force | ImportAction::Require => true,
            _ => false,
        }
    }

    pub fn ignore(&self) -> (r: bool)
        ensures
            r == (*self == ImportAction::Ignore),
    {
        match self {
            ImportAction::Ignore => true,
            _ => false,
        }
    }

    pub fn is_required(&self) -> (r: bool)
        ensures
            r == (*self == ImportAction::Require),
    {
        match self {
            ImportAction::Require => true,
            _ => false,
        }
    }

    /// Whether the claim is imported, given whether the user chose to import
    /// a suggested value.
    pub open spec fn imports(self, user_preference: bool) -> bool {
        match self {
            ImportAction::Ignore => false,
            ImportAction::Suggest => user_preference,
            ImportAction::Force | ImportAction::Require => true,
        }
    }

    pub fn should_import(&self, user_preference: bool) -> (r: bool)
        ensures
            r == self.imports(user_preference),
    {
        match self {
            ImportAction::Ignore => false,
            ImportAction::Suggest => user_preference,
            ImportAction::Force | ImportAction::Require => true,
        }
    }
}

impl Default for ImportAction {
    fn default() -> (r: ImportAction)
        ensures
            r == ImportAction::Ignore,
    {
        ImportAction::Ignore
    }
}

/// An ignored claim is never imported, a forced or required one always is,
/// and only a suggested one follows the user's choice; a required claim is
/// also a forced-or-required one.
pub proof fn import_action_laws(a: ImportAction, user_preference: bool)
    ensures
        a == ImportAction::Ignore ==> !a.imports(user_preference),
        (a == ImportAction::Force || a == ImportAction::Require) ==> a.imports(user_preference),
        a.imports(true) != a.imports(false) <==> a == ImportAction::Suggest,
        a.imports(true) <==> a != ImportAction::Ignore,
{
}

/// What to do when the imported localpart already has a link.
#[derive(Debug, Clone, Copy, PartialEq, Eq, Structural)]
pub enum OnConflict {
    /// Fails the upstream OAuth 2.0 login on conflict
    Fail,
    /// Adds the upstream OAuth 2.0 identity link, regardless of whether there
    /// is an existing link or not
    Add,
    /// Replace any existing upstream OAuth 2.0 identity link
    Replace,
    /// Adds the upstream OAuth 2.0 identity link *only* if there is no existing
    /// link for this provider on the matching user
    SetIfAbsent,
}

impl Default for OnConflict {
    fn default() -> (r: OnConflict)
        ensures
            r == OnConflict::Fail,
    {
        OnConflict::Fail
    }
}

/// A template that picks a value out of the upstream claims.
#[derive(Debug, Clone, PartialEq, Eq)]
pub struct SubjectPreference {
    pub template: Option<String>,
}

impl Default for SubjectPreference {
    fn default() -> (r: SubjectPreference)
        ensures
            r.template is None,
    {
        SubjectPreference { template: None }
    }
}

/// How the localpart is imported.
#[derive(Debug, Clone, PartialEq, Eq)]
pub struct LocalpartPreference {
    pub action: ImportAction,
    pub template: Option<String>,
    pub on_conflict: OnConflict,
}

impl Default for LocalpartPreference {
    fn default() -> (r: LocalpartPreference)
        ensures
            r.action == ImportAction::Ignore,
            r.template is None,
            r.on_conflict == OnConflict::Fail,
    {
        LocalpartPreference { action: ImportAction::Ignore, template: None, on_conflict: OnConflict::Fail }
    }
}

impl std::ops::Deref for LocalpartPreference {
    type Target = ImportAction;

    fn deref(&self) -> (r: &ImportAction)
        ensures
            *r == self.action,
    {
        &self.action
    }
}

/// How one claim (display name, email) is imported.
#[derive(Debug, Clone, PartialEq, Eq)]
pub struct ImportPreference {
    pub action: ImportAction,
    pub template: Option<String>,
}

impl Default for ImportPreference {
    fn default() -> (r: ImportPreference)
        ensures
            r.action == ImportAction::Ignore,
            r.template is None,
    {
        ImportPreference { action: ImportAction::Ignore, template: None }
    }
}

impl std::ops::Deref for ImportPreference {
    type Target = ImportAction;

    fn deref(&self) -> (r: &ImportAction)
        ensures
            *r == self.action,
    {
        &self.action
    }
}

/// The claims taken from the upstream identity.
#[derive(Debug, Clone, PartialEq, Eq)]
pub struct ClaimsImports {
    pub subject: SubjectPreference,
    pub skip_confirmation: bool,
    pub localpart: LocalpartPreference,
    pub displayname: ImportPreference,
    pub email: ImportPreference,
    pub account_name: SubjectPreference,
}

impl Default for ClaimsImports {
    fn default() -> (r: ClaimsImports)
        ensures
            r.subject.template is None,
            !r.skip_confirmation,
            r.localpart.action == ImportAction::Ignore,
            r.localpart.template is None,
            r.localpart.on_conflict == OnConflict::Fail,
            r.displayname.action == ImportAction::Ignore,
            r.displayname.template is None,
            r.email.action == ImportAction::Ignore,
            r.email.template is None,
            r.account_name.template is None,
    {
        ClaimsImports {
            subject: SubjectPreference::default(),
            skip_confirmation: false,
            localpart: LocalpartPreference::default(),
            displayname: ImportPreference::default(),
            email: ImportPreference::default(),
            account_name: SubjectPreference::default(),
        }
    }
}

} // verus!
