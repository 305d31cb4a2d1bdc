//! Installing a version: choose it from the provider's listing, fetch it,
//! unpack it, and give the unpacked package its canonical name.

use vstd::prelude::*;
use crate::archive::{
    Extraction, ExtractionView, Rename, RenameView, archive_kind, canonical_rename, package_root,
    rename_package, single_entry, unarchive,
};
use crate::client::package_client::{DownloadResponse, DownloadResponseView};
use crate::config::VersionRequirements;
use crate::error::JvcError;
use crate::path::{join, join_path};
use crate::text::{decimal, decimal_text};
use crate::version::{Version, VersionView, encode};

verus! {

/// The install command: install the version with the number `version`.
#[derive(Debug)]
pub struct Install {
    /// The number of the version to install.
    pub version: u32,
    /// What the build must be like.
    pub requirements: VersionRequirements,
}

/// What an installation asks its caller to do.
#[derive(Debug)]
pub enum InstallRequest {
    /// List the versions that the provider offers.
    List,
    /// Fetch the build of `version`.
    Download { version: Version },
    /// Unpack an archive.
    Extract(Extraction),
    /// Read the names of the entries of the directory `dir`.
    ReadEntries { dir: String },
    /// Rename a directory entry.
    Rename(Rename),
}

/// What an `InstallRequest` holds, as plain values.
pub enum InstallRequestView {
    List,
    Download { version: VersionView },
    Extract(ExtractionView),
    ReadEntries { dir: Seq<char> },
    Rename(RenameView),
}

impl View for InstallRequest {
    type V = InstallRequestView;

    open spec fn view(&self) -> InstallRequestView {
        match self {
            InstallRequest::List => InstallRequestView::List,
            InstallRequest::Download { version } => InstallRequestView::Download {
                version: version@,
            },
            InstallRequest::Extract(x) => InstallRequestView::Extract(x@),
            InstallRequest::ReadEntries { dir } => InstallRequestView::ReadEntries { dir: dir@ },
            InstallRequest::Rename(r) => InstallRequestView::Rename(r@),
        }
    }
}

/// What came of a request of an installation.
pub enum InstallEvent {
    /// The versions that the provider offers.
    Listed(Vec<Version>),
    /// The artifact was fetched.
    Downloaded(DownloadResponse),
    /// The archive was unpacked.
    Extracted,
    /// The names of the entries of the directory.
    Entries(Vec<String>),
    /// The entry was renamed.
    Renamed,
    /// The request failed.
    Failed(JvcError),
}

/// What an `InstallEvent` holds, as plain values.
pub enum InstallEventView {
    Listed(Seq<VersionView>),
    Downloaded(DownloadResponseView),
    Extracted,
    Entries(Seq<Seq<char>>),
    Renamed,
    Failed(JvcError),
}

impl View for InstallEvent {
    type V = InstallEventView;

    open spec fn view(&self) -> InstallEventView {
        match self {
            InstallEvent::Listed(v) => InstallEventView::Listed(v.deep_view()),
            InstallEvent::Downloaded(r) => InstallEventView::Downloaded(r@),
            InstallEvent::Extracted => InstallEventView::Extracted,
            InstallEvent::Entries(e) => InstallEventView::Entries(e.deep_view()),
            InstallEvent::Renamed => InstallEventView::Renamed,
            InstallEvent::Failed(e) => InstallEventView::Failed(*e),
        }
    }
}

/// What an installation waits for.
pub enum InstallState {
    /// The provider's listing.
    Listing,
    /// The artifact, which is to be unpacked into `install_dir`.
    Downloading { install_dir: String },
    /// The unpacking into `install_dir`.
    Extracting { install_dir: String },
    /// The names of the entries of `install_dir`.
    Inspecting { install_dir: String },
    /// The renaming of the package's root.
    Renaming,
}

/// What an `InstallState` holds, as plain values.
pub enum InstallStateView {
    Listing,
    Downloading { install_dir: Seq<char> },
    Extracting { install_dir: Seq<char> },
    Inspecting { install_dir: Seq<char> },
    Renaming,
}

impl View for InstallState {
    type V = InstallStateView;

    open spec fn view(&self) -> InstallStateView {
        match self {
            InstallState::Listing => InstallStateView::Listing,
            InstallState::Downloading { install_dir } => InstallStateView::Downloading {
                install_dir: install_dir@,
            },
            InstallState::Extracting { install_dir } => InstallStateView::Extracting {
                install_dir: install_dir@,
            },
            InstallState::Inspecting { install_dir } => InstallStateView::Inspecting {
                install_dir: install_dir@,
            },
            InstallState::Renaming => InstallStateView::Renaming,
        }
    }
}

/// One step of an installation: a request, or the end.
pub enum InstallStep {
    /// Do what `request` says and hand back what came of it together with `state`.
    Ask { request: InstallRequest, state: InstallState },
    /// The version is installed.
    Done,
    /// The installation failed. What was fetched and unpacked so far stays in place.
    Failed(JvcError),
}

/// What an `InstallStep` holds, as plain values.
pub enum InstallStepView {
    Ask { request: InstallRequestView, state: InstallStateView },
    Done,
    Failed(JvcError),
}

impl View for InstallStep {
    type V = InstallStepView;

    open spec fn view(&self) -> InstallStepView {
        match self {
            InstallStep::Ask { request, state } => InstallStepView::Ask {
                request: request@,
                state: state@,
            },
            InstallStep::Done => InstallStepView::Done,
            InstallStep::Failed(e) => InstallStepView::Failed(*e),
        }
    }
}

/// The first of `versions` whose value is the numeral of `number`.
pub open spec fn selected(versions: Seq<VersionView>, number: u32) -> Option<VersionView>
    decreases versions.len(),
{
    if versions.len() == 0 {
        None
    } else if versions[0].value == decimal(number as nat) {
        Some(versions[0])
    } else {
        selected(versions.drop_first(), number)
    }
}

/// The directory of an installed version: named by the version's
/// canonical directory name, in the installation directory.
pub open spec fn install_dir(installation_dir: Seq<char>, version: VersionView) -> Seq<char> {
    join(installation_dir, encode(version))
}

/// The failure that ends an installation when an event does not fit what
/// was awaited: a reported failure is passed on, any other event is out of place.
pub open spec fn misfit_event(event: InstallEventView) -> JvcError {
    match event {
        InstallEventView::Failed(e) => e,
        _ => JvcError::SchemaError,
    }
}

/// The first step of an installation: ask for the provider's listing.
pub open spec fn install_start() -> InstallStepView {
    InstallStepView::Ask { request: InstallRequestView::List, state: InstallStateView::Listing }
}

/// The step after an event of an installation.
///
/// The version is chosen from the listing by its number, and its build is
/// fetched; a number that the listing lacks ends the installation with
/// `VersionNotOffered`. The artifact is unpacked by the kind that the
/// package's name tells, into the version's directory. The entries of that
/// directory are then read: exactly one entry is renamed to the canonical
/// name, any other number of entries ends the installation with
/// `DirectoryContractViolation`. The renaming ends it well. A failure that
/// is reported ends it with that failure.
pub open spec fn install_next(
    number: u32,
    installation_dir: Seq<char>,
    state: InstallStateView,
    event: InstallEventView,
) -> InstallStepView {
    match (state, event) {
        (InstallStateView::Listing, InstallEventView::Listed(versions)) => match selected(
            versions,
            number,
        ) {
            Some(version) => InstallStepView::Ask {
                request: InstallRequestView::Download { version },
                state: InstallStateView::Downloading {
                    install_dir: install_dir(installation_dir, version),
                },
            },
            None => InstallStepView::Failed(JvcError::VersionNotOffered),
        },
        (
            InstallStateView::Downloading { install_dir },
            InstallEventView::Downloaded(response),
        ) => match archive_kind(response.package_name) {
            Ok(kind) => InstallStepView::Ask {
                request: InstallRequestView::Extract(
                    ExtractionView { kind, from: response.download_path, to: install_dir },
                ),
                state: InstallStateView::Extracting { install_dir },
            },
            Err(e) => InstallStepView::Failed(e),
        },
        (InstallStateView::Extracting { install_dir }, InstallEventView::Extracted) => {
            InstallStepView::Ask {
                request: InstallRequestView::ReadEntries { dir: install_dir },
                state: InstallStateView::Inspecting { install_dir },
            }
        },
        (InstallStateView::Inspecting { install_dir }, InstallEventView::Entries(entries)) => {
            match single_entry(entries) {
                Ok(root) => InstallStepView::Ask {
                    request: InstallRequestView::Rename(canonical_rename(install_dir, root)),
                    state: InstallStateView::Renaming,
                },
                Err(e) => InstallStepView::Failed(e),
            }
        },
        (InstallStateView::Renaming, InstallEventView::Renamed) => InstallStepView::Done,
        _ => InstallStepView::Failed(misfit_event(event)),
    }
}

/// An unpacked archive with exactly one entry has that entry renamed to
/// the canonical name; with no entry, or with several, the installation
/// ends with `DirectoryContractViolation`.
pub proof fn lemma_unpacked_archive_needs_one_root(
    number: u32,
    installation_dir: Seq<char>,
    install_dir: Seq<char>,
    entries: Seq<Seq<char>>,
)
    ensures
        install_next(
            number,
            installation_dir,
            InstallStateView::Inspecting { install_dir },
            InstallEventView::Entries(entries),
        ) == if entries.len() == 1 {
            InstallStepView::Ask {
                request: InstallRequestView::Rename(canonical_rename(install_dir, entries[0])),
                state: InstallStateView::Renaming,
            }
        } else {
            InstallStepView::Failed(JvcError::DirectoryContractViolation)
        },
{
}

/// The view of a result that holds a version.
pub open spec fn selection_result(r: Result<Version, JvcError>) -> Result<VersionView, JvcError> {
    match r {
        Ok(v) => Ok(v@),
        Err(e) => Err(e),
    }
}

/// The version with the number `version` among those that the provider
/// offers: the first whose value is that number's numeral. Where there is
/// none, the selection fails with `VersionNotOffered`.
pub fn get_selected_version(versions: Vec<Version>, version: u32) -> (r: Result<Version, JvcError>)
    ensures
        selection_result(r) == match selected(versions.deep_view(), version) {
            Some(v) => Ok::<VersionView, JvcError>(v),
            None => Err::<VersionView, JvcError>(JvcError::VersionNotOffered),
        },
{
    let wanted = decimal_text(version as u64);
    let ghost all = versions.deep_view();
    let mut i: usize = 0;
    assert(all.skip(0) =~= all);
    while i < versions.len()
        invariant
            i <= versions.len(),
            all == versions.deep_view(),
            wanted@ == decimal(version as nat),
            selected(all, version) == selected(all.skip(i as int), version),
        decreases versions.len() - i,
    {
        let ghost rest = all.skip(i as int);
        assert(rest[0] == versions[i as int]@);
        assert(rest.drop_first() =~= all.skip(i + 1));
        if versions[i].value == wanted {
            return Ok(versions[i].clone());
        }
        i += 1;
    }
    Err(JvcError::VersionNotOffered)
}

/// The failure that ends an installation when `event` does not fit what was awaited.
fn misfit_of(event: &InstallEvent) -> (e: JvcError)
    ensures
        e == misfit_event(event@),
{
    match event {
        InstallEvent::Failed(e) => *e,
        _ => JvcError::SchemaError,
    }
}

impl Install {
    /// The first step of the installation.
    pub fn begin(&self) -> (step: InstallStep)
        ensures
            step@ == install_start(),
    {
        InstallStep::Ask { request: InstallRequest::List, state: InstallState::Listing }
    }

    /// The step that follows when `event` comes in while the installation
    /// is in `state`. Versions are installed below `installation_dir`.
    pub fn next(&self, installation_dir: &str, state: InstallState, event: InstallEvent) -> (step:
        InstallStep)
        ensures
            step@ == install_next(self.version, installation_dir@, state@, event@),
    {
        match (state, event) {
            (InstallState::Listing, InstallEvent::Listed(versions)) => {
                match get_selected_version(versions, self.version) {
                    Ok(version) => {
                        let install_dir = join_path(
                            installation_dir,
                            version.as_disk_version().as_str(),
                        );
                        InstallStep::Ask {
                            request: InstallRequest::Download { version },
                            state: InstallState::Downloading { install_dir },
                        }
                    },
                    Err(e) => InstallStep::Failed(e),
                }
            },
            (InstallState::Downloading { install_dir }, InstallEvent::Downloaded(response)) => {
                let DownloadResponse { download_path, package_name } = response;
                match unarchive(package_name.as_str(), download_path, install_dir.clone()) {
                    Ok(extraction) => InstallStep::Ask {
                        request: InstallRequest::Extract(extraction),
                        state: InstallState::Extracting { install_dir },
                    },
                    Err(e) => InstallStep::Failed(e),
                }
            },
            (InstallState::Extracting { install_dir }, InstallEvent::Extracted) => {
                InstallStep::Ask {
                    request: InstallRequest::ReadEntries { dir: install_dir.clone() },
                    state: InstallState::Inspecting { install_dir },
                }
            },
            (InstallState::Inspecting { install_dir }, InstallEvent::Entries(entries)) => {
                match package_root(&entries) {
                    Ok(root) => InstallStep::Ask {
                        request: InstallRequest::Rename(
                            rename_package(install_dir.as_str(), root.as_str()),
                        ),
                        state: InstallState::Renaming,
                    },
                    Err(e) => InstallStep::Failed(e),
                }
            },
            (InstallState::Renaming, InstallEvent::Renamed) => InstallStep::Done,
            (_, event) => InstallStep::Failed(misfit_of(&event)),
        }
    }
}

} // verus!
