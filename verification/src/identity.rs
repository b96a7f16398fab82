//! The identity under which the application's directories are resolved.

use vstd::prelude::*;

verus! {

/// Qualifier of the application's identity: a reverse domain name without
/// the organization and the application.
pub const QUALIFIER: &'static str = "org";

/// Organization that publishes the application.
pub const ORGANIZATION: &'static str = "infohazards";

/// Name of the application.
pub const APPLICATION: &'static str = "indranet-explorer";

/// The three names from which a platform derives the per-user directories
/// of one application.
#[derive(Debug, PartialEq, Eq)]
pub struct AppIdentity {
    pub qualifier: String,
    pub organization: String,
    pub application: String,
}

/// An identity as a triple of texts.
pub struct AppIdentityView {
    pub qualifier: Seq<char>,
    pub organization: Seq<char>,
    pub application: Seq<char>,
}

impl View for AppIdentity {
    type V = AppIdentityView;

    open spec fn view(&self) -> AppIdentityView {
        AppIdentityView {
            qualifier: self.qualifier@,
            organization: self.organization@,
            application: self.application@,
        }
    }
}

/// The identity of this application.
pub open spec fn app_identity_view() -> AppIdentityView {
    AppIdentityView {
        qualifier: QUALIFIER@,
        organization: ORGANIZATION@,
        application: APPLICATION@,
    }
}

/// Returns the identity of this application. It is fixed: no call changes it.
pub fn app_identity() -> (identity: AppIdentity)
    ensures
        identity@ == app_identity_view(),
{
    AppIdentity {
        qualifier: QUALIFIER.to_owned(),
        organization: ORGANIZATION.to_owned(),
        application: APPLICATION.to_owned(),
    }
}

} // verus!
