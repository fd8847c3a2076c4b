//! Version discovery and the bump step: the probed manifests are handed in
//! as plain values (the adapters that read and write the files are outside
//! collaborators), probed in the fixed priority order, and the first match
//! wins; its version string must parse as a valid semantic version.

use vstd::prelude::*;

use crate::error::{ErrorView, PackageManager, StepError};
use crate::semver::{parsed_version, spec_bump, bump, Rule, Version, VersionView};
use crate::state::{Initial, IssueSelected, Release, State};

verus! {

/// The version strings the manifest adapters found, one per ecosystem;
/// `None` where no manifest was found.
#[derive(Debug, PartialEq, Eq)]
pub struct Manifests {
    pub cargo: Option<String>,
    pub pyproject: Option<String>,
    pub package_json: Option<String>,
}

/// The mathematical shape of [`Manifests`].
#[verifier::ext_equal]
pub struct ManifestsView {
    pub cargo: Option<Seq<char>>,
    pub pyproject: Option<Seq<char>>,
    pub package_json: Option<Seq<char>>,
}

impl View for Manifests {
    type V = ManifestsView;

    open spec fn view(&self) -> ManifestsView {
        ManifestsView {
            cargo: match self.cargo {
                Some(s) => Some(s@),
                None => None,
            },
            pyproject: match self.pyproject {
                Some(s) => Some(s@),
                None => None,
            },
            package_json: match self.package_json {
                Some(s) => Some(s@),
                None => None,
            },
        }
    }
}

/// A discovered project version together with the ecosystem it came from.
#[derive(Debug, PartialEq, Eq)]
pub struct PackageVersion {
    pub version: Version,
    pub package_manager: PackageManager,
}

/// The mathematical shape of a [`PackageVersion`].
#[verifier::ext_equal]
pub struct PackageVersionView {
    pub version: VersionView,
    pub package_manager: PackageManager,
}

impl View for PackageVersion {
    type V = PackageVersionView;

    open spec fn view(&self) -> PackageVersionView {
        PackageVersionView { version: self.version@, package_manager: self.package_manager }
    }
}

impl PackageVersion {
    /// A discovered version is shown as its version text alone.
    pub fn render(&self) -> (r: String)
        ensures
            r@ == crate::semver::version_chars(self.version@),
    {
        self.version.render()
    }
}

/// The first manifest found, in the fixed priority order: the native
/// manifest, then the Python project, then the JavaScript package.
pub open spec fn probed(m: ManifestsView) -> Option<(PackageManager, Seq<char>)> {
    if m.cargo is Some {
        Some((PackageManager::Cargo, m.cargo->0))
    } else if m.pyproject is Some {
        Some((PackageManager::Poetry, m.pyproject->0))
    } else if m.package_json is Some {
        Some((PackageManager::JavaScript, m.package_json->0))
    } else {
        None
    }
}

/// What version discovery yields: the first manifest's version, or the
/// exact error for a missing or unparseable one.
pub open spec fn spec_get_version(m: ManifestsView) -> Result<PackageVersionView, ErrorView> {
    match probed(m) {
        None => Err(ErrorView::NoManifestFound),
        Some((pm, s)) => match parsed_version(s) {
            None => Err(ErrorView::InvalidVersion { found: s, manifest: pm }),
            Some(v) => Ok(PackageVersionView { version: v, package_manager: pm }),
        },
    }
}

/// The view of a discovery or bump outcome.
pub open spec fn package_result_view(r: Result<PackageVersion, StepError>) -> Result<
    PackageVersionView,
    ErrorView,
> {
    match r {
        Ok(pv) => Ok(pv@),
        Err(e) => Err(e@),
    }
}

/// Discover the current project version from the probed manifests.
pub fn get_version(manifests: &Manifests) -> (r: Result<PackageVersion, StepError>)
    ensures
        package_result_view(r) == spec_get_version(manifests@),
        r matches Ok(pv) ==> pv.version@.wf(),
{
    if let Some(found) = &manifests.cargo {
        parse_found(found, PackageManager::Cargo)
    } else if let Some(found) = &manifests.pyproject {
        parse_found(found, PackageManager::Poetry)
    } else if let Some(found) = &manifests.package_json {
        parse_found(found, PackageManager::JavaScript)
    } else {
        Err(StepError::NoManifestFound)
    }
}

/// Parse one found manifest version string.
fn parse_found(found: &String, manifest: PackageManager) -> (r: Result<PackageVersion, StepError>)
    ensures
        package_result_view(r) == (match parsed_version(found@) {
            None => Err::<PackageVersionView, ErrorView>(
                ErrorView::InvalidVersion { found: found@, manifest },
            ),
            Some(v) => Ok::<PackageVersionView, ErrorView>(
                PackageVersionView { version: v, package_manager: manifest },
            ),
        }),
        r matches Ok(pv) ==> pv.version@.wf() && pv.package_manager == manifest,
{
    match Version::parse(found.as_str()) {
        None => Err(StepError::InvalidVersion { found: found.clone(), manifest }),
        Some(version) => Ok(PackageVersion { version, package_manager: manifest }),
    }
}

/// What the bump step yields for probed manifests and a rule.
pub open spec fn spec_bump_version(m: ManifestsView, rule: crate::semver::RuleView) -> Result<
    PackageVersionView,
    ErrorView,
> {
    match spec_get_version(m) {
        Err(e) => Err(e),
        Ok(pv) => match spec_bump(pv.version, rule) {
            Err(e) => Err(e),
            Ok(v) => Ok(PackageVersionView { version: v, package_manager: pv.package_manager }),
        },
    }
}

/// Discover the current version and apply a bump rule to it. Writing the
/// result back to its manifest is the caller's side effect, done in real
/// mode only with the ecosystem tag carried in the result.
pub fn bump_version(manifests: &Manifests, rule: Rule) -> (r: Result<PackageVersion, StepError>)
    ensures
        package_result_view(r) == spec_bump_version(manifests@, rule@),
        r matches Ok(pv) ==> pv.version@.wf(),
{
    match get_version(manifests) {
        Err(e) => Err(e),
        Ok(pv) => match bump(pv.version, rule) {
            Err(e) => Err(e),
            Ok(version) => Ok(PackageVersion { version, package_manager: pv.package_manager }),
        },
    }
}

/// Bump the version and record the result in the release sub-field. The
/// rest of the state is untouched, and the release only moves forward to
/// `Bumped`.
pub fn bump_version_and_update_state(state: State, manifests: &Manifests, rule: Rule) -> (r:
    Result<State, StepError>)
    ensures
        r matches Err(e) ==> spec_bump_version(manifests@, rule@) == Err::<
            PackageVersionView,
            ErrorView,
        >(e@),
        r matches Ok(s2) ==> {
            &&& spec_bump_version(manifests@, rule@) matches Ok(pv)
            &&& crate::state::release_of(s2) matches Release::Bumped(v) && v@ == (
            spec_bump_version(manifests@, rule@)->Ok_0).version
            &&& crate::state::same_but_release(state, s2)
        },
{
    match bump_version(manifests, rule) {
        Err(e) => Err(e),
        Ok(pv) => match state {
            State::Initial(parts) => Ok(
                State::Initial(Initial { release: Release::Bumped(pv.version), ..parts }),
            ),
            State::IssueSelected(parts) => Ok(
                State::IssueSelected(
                    IssueSelected { release: Release::Bumped(pv.version), ..parts },
                ),
            ),
        },
    }
}

} // verus!
