//! The package resolver: whether the installed copy of the server's package is
//! the latest one, and what to install where it is not.
//!
//! The resolver only decides. Asking the registry and running the installer are
//! the caller's work.

use vstd::prelude::*;
use vstd::string::StringExecFns;

verus! {

/// A package at one version.
#[derive(Debug, PartialEq, Eq)]
pub struct PackageIdentity {
    pub name: String,
    pub version: String,
}

/// The mathematical model of a `PackageIdentity`.
pub struct PackageIdentityView {
    pub name: Seq<char>,
    pub version: Seq<char>,
}

impl View for PackageIdentity {
    type V = PackageIdentityView;

    open spec fn view(&self) -> PackageIdentityView {
        PackageIdentityView { name: self.name@, version: self.version@ }
    }
}

/// The package to install so that `name` is current: none where the installed
/// version is the latest, else the package at its latest version. A package that
/// is not installed at all is never current.
pub open spec fn install_plan(
    name: Seq<char>,
    installed: Option<Seq<char>>,
    latest: Seq<char>,
) -> Option<PackageIdentityView> {
    if installed == Some(latest) {
        None
    } else {
        Some(PackageIdentityView { name, version: latest })
    }
}

/// Compares the installed version of a package with the latest and says what to
/// install, if anything.
pub fn reconcile(name: &str, installed: &Option<String>, latest: String) -> (plan: Option<
    PackageIdentity,
>)
    ensures
        match plan {
            Some(package) => install_plan(name@, installed.deep_view(), latest@) == Some(package@),
            None => install_plan(name@, installed.deep_view(), latest@) is None,
        },
{
    let current = match installed {
        Some(version) => *version == latest,
        None => false,
    };
    if current {
        None
    } else {
        Some(PackageIdentity { name: String::from_str(name), version: latest })
    }
}

} // verus!
