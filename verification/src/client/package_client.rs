//! What every provider's client offers, and the exchange between a client
//! and the caller that sends its requests.

use vstd::prelude::*;
use crate::client::adoptopenjdk_client::{
    AdoptOpenJDKClient, AdoptOpenJDKVersion, BinariesInfo, PackageInfoView, ReleasesView,
};
use crate::client::azul_client::{AzulClient, AzulPackage, AzulPackageDetails, PackageDetailsView};
use crate::config::{ClientConfig, ClientConfigView, RequirementsView, VersionRequirements};
use crate::error::JvcError;
use crate::path::opt_text;
use crate::provider::{Provider, provider_base_url};
use crate::version::{Version, VersionView};

verus! {

/// Where a fetched artifact lies and what the provider calls it.
#[derive(Debug)]
pub struct DownloadResponse {
    /// The file that holds the artifact.
    pub download_path: String,
    /// The provider's name for the package, whose extension tells the kind of archive.
    pub package_name: String,
}

/// What a `DownloadResponse` holds, as plain values.
pub struct DownloadResponseView {
    pub download_path: Seq<char>,
    pub package_name: Seq<char>,
}

impl View for DownloadResponse {
    type V = DownloadResponseView;

    open spec fn view(&self) -> DownloadResponseView {
        DownloadResponseView {
            download_path: self.download_path@,
            package_name: self.package_name@,
        }
    }
}

/// The shape in which the answer to a request is to be read.
#[derive(Debug, Clone, Copy, PartialEq, Eq, Structural)]
pub enum Shape {
    /// The available releases and the long-term-support ones among them.
    Releases,
    /// A list of bundles, each with its version.
    Bundles,
    /// A list of releases, each with its binaries.
    Binaries,
    /// The details of one package.
    Details,
}

/// A request that a client asks its caller to send.
#[derive(Debug)]
pub enum Request {
    /// Fetch `url` and read the answer in the given shape.
    Get { url: String, shape: Shape },
    /// Fetch `url` without following a redirect, and report the status and
    /// the `Location` header of the answer.
    Probe { url: String },
    /// Fetch `url` and write the body to the file `path`, which is expected
    /// to take `total_size` bytes.
    Store { url: String, path: String, total_size: u32 },
}

/// What a `Request` holds, as plain values.
pub enum RequestView {
    Get { url: Seq<char>, shape: Shape },
    Probe { url: Seq<char> },
    Store { url: Seq<char>, path: Seq<char>, total_size: u32 },
}

impl View for Request {
    type V = RequestView;

    open spec fn view(&self) -> RequestView {
        match self {
            Request::Get { url, shape } => RequestView::Get { url: url@, shape: *shape },
            Request::Probe { url } => RequestView::Probe { url: url@ },
            Request::Store { url, path, total_size } => RequestView::Store {
                url: url@,
                path: path@,
                total_size: *total_size,
            },
        }
    }
}

/// What came back for a request.
pub enum Reply {
    /// The answer to a `Get` with the shape `Releases`.
    Releases(AdoptOpenJDKVersion),
    /// The answer to a `Get` with the shape `Bundles`.
    Bundles(Vec<AzulPackage>),
    /// The answer to a `Get` with the shape `Binaries`.
    Binaries(Vec<BinariesInfo>),
    /// The answer to a `Get` with the shape `Details`.
    Details(AzulPackageDetails),
    /// The answer to a `Probe`.
    Redirect { status: u16, location: Option<String> },
    /// The body asked for by a `Store` is in its file.
    Stored,
    /// The request failed, in sending, in reading the answer or in writing the file.
    Failed(JvcError),
}

/// What a `Reply` holds of what the clients read, as plain values.
pub enum ReplyView {
    Releases(ReleasesView),
    Bundles(Seq<Seq<u32>>),
    Binaries(Seq<Seq<PackageInfoView>>),
    Details(PackageDetailsView),
    Redirect { status: u16, location: Option<Seq<char>> },
    Stored,
    Failed(JvcError),
}

impl View for Reply {
    type V = ReplyView;

    open spec fn view(&self) -> ReplyView {
        match self {
            Reply::Releases(r) => ReplyView::Releases(r@),
            Reply::Bundles(b) => ReplyView::Bundles(b.deep_view()),
            Reply::Binaries(b) => ReplyView::Binaries(b.deep_view()),
            Reply::Details(d) => ReplyView::Details(d@),
            Reply::Redirect { status, location } => ReplyView::Redirect {
                status: *status,
                location: opt_text(*location),
            },
            Reply::Stored => ReplyView::Stored,
            Reply::Failed(e) => ReplyView::Failed(*e),
        }
    }
}

/// The versions that a provider offers.
#[derive(Debug)]
pub struct Listing {
    /// The versions, in the order in which they are shown.
    pub versions: Vec<Version>,
    /// Whether the provider's long-term-support flags could not be had, so
    /// that no version is flagged. The caller should warn the user.
    pub degraded: bool,
}

/// What a `Listing` holds, as plain values.
pub struct ListingView {
    pub versions: Seq<VersionView>,
    pub degraded: bool,
}

impl View for Listing {
    type V = ListingView;

    open spec fn view(&self) -> ListingView {
        ListingView { versions: self.versions.deep_view(), degraded: self.degraded }
    }
}

/// What a listing waits for.
pub enum ListState {
    /// The available releases.
    AwaitReleases,
    /// All bundles that match. The long-term-support bundles are then asked for at `lts_url`.
    AwaitBundles { lts_url: String },
    /// The long-term-support bundles, `all` bundles being known.
    AwaitLtsBundles { all: Vec<AzulPackage> },
}

/// What a `ListState` holds, as plain values.
pub enum ListStateView {
    AwaitReleases,
    AwaitBundles { lts_url: Seq<char> },
    AwaitLtsBundles { all: Seq<Seq<u32>> },
}

impl View for ListState {
    type V = ListStateView;

    open spec fn view(&self) -> ListStateView {
        match self {
            ListState::AwaitReleases => ListStateView::AwaitReleases,
            ListState::AwaitBundles { lts_url } => ListStateView::AwaitBundles { lts_url: lts_url@ },
            ListState::AwaitLtsBundles { all } => ListStateView::AwaitLtsBundles {
                all: all.deep_view(),
            },
        }
    }
}

/// One step of a listing: a request to send, or the end.
pub enum ListStep {
    /// Send `request` and hand the reply to the client together with `state`.
    Ask { request: Request, state: ListState },
    /// The listing is complete.
    Done(Listing),
    /// The listing failed.
    Failed(JvcError),
}

/// What a `ListStep` holds, as plain values.
pub enum ListStepView {
    Ask { request: RequestView, state: ListStateView },
    Done(ListingView),
    Failed(JvcError),
}

impl View for ListStep {
    type V = ListStepView;

    open spec fn view(&self) -> ListStepView {
        match self {
            ListStep::Ask { request, state } => ListStepView::Ask { request: request@, state: state@ },
            ListStep::Done(l) => ListStepView::Done(l@),
            ListStep::Failed(e) => ListStepView::Failed(*e),
        }
    }
}

/// What a download waits for.
pub enum DownloadState {
    /// The releases with their binaries.
    AwaitBinaries,
    /// The redirect to the artifact of the package `package_name`, which takes `total_size` bytes.
    AwaitRedirect { package_name: String, total_size: u32 },
    /// The details of the package.
    AwaitDetails,
    /// The artifact of the package `package_name` in its file.
    AwaitBody { package_name: String },
}

/// What a `DownloadState` holds, as plain values.
pub enum DownloadStateView {
    AwaitBinaries,
    AwaitRedirect { package_name: Seq<char>, total_size: u32 },
    AwaitDetails,
    AwaitBody { package_name: Seq<char> },
}

impl View for DownloadState {
    type V = DownloadStateView;

    open spec fn view(&self) -> DownloadStateView {
        match self {
            DownloadState::AwaitBinaries => DownloadStateView::AwaitBinaries,
            DownloadState::AwaitRedirect { package_name, total_size } => {
                DownloadStateView::AwaitRedirect {
                    package_name: package_name@,
                    total_size: *total_size,
                }
            },
            DownloadState::AwaitDetails => DownloadStateView::AwaitDetails,
            DownloadState::AwaitBody { package_name } => DownloadStateView::AwaitBody {
                package_name: package_name@,
            },
        }
    }
}

/// One step of a download: a request to send, or the end.
pub enum DownloadStep {
    /// Send `request` and hand the reply to the client together with `state`.
    Ask { request: Request, state: DownloadState },
    /// The artifact is in its file.
    Done(DownloadResponse),
    /// The download failed.
    Failed(JvcError),
}

/// What a `DownloadStep` holds, as plain values.
pub enum DownloadStepView {
    Ask { request: RequestView, state: DownloadStateView },
    Done(DownloadResponseView),
    Failed(JvcError),
}

impl View for DownloadStep {
    type V = DownloadStepView;

    open spec fn view(&self) -> DownloadStepView {
        match self {
            DownloadStep::Ask { request, state } => DownloadStepView::Ask {
                request: request@,
                state: state@,
            },
            DownloadStep::Done(r) => DownloadStepView::Done(r@),
            DownloadStep::Failed(e) => DownloadStepView::Failed(*e),
        }
    }
}

/// The step that ends an exchange when a reply does not fit what was
/// awaited: a reported failure is passed on, any other reply is a reply of
/// the wrong shape.
pub open spec fn misfit(reply: ReplyView) -> JvcError {
    match reply {
        ReplyView::Failed(e) => e,
        _ => JvcError::SchemaError,
    }
}

/// The failure that ends an exchange when `reply` does not fit what was awaited.
pub fn misfit_of(reply: &Reply) -> (e: JvcError)
    ensures
        e == misfit(reply@),
{
    match reply {
        Reply::Failed(e) => *e,
        _ => JvcError::SchemaError,
    }
}

/// A client of one provider's service. Listing and download are exchanges:
/// the client names a request, its caller sends it and hands back the
/// reply, until the client names the end.
pub trait PackageClient {
    /// The address below which the service answers.
    spec fn base_url(&self) -> Seq<char>;

    /// The first step of a listing.
    spec fn listing_start(&self, requirements: RequirementsView) -> ListStepView;

    /// The step that follows when `reply` comes in while the listing is in `state`.
    spec fn listing_next(&self, state: ListStateView, reply: ReplyView) -> ListStepView;

    /// The first step of a download.
    spec fn fetch_start(&self, config: ClientConfigView) -> DownloadStepView;

    /// The step that follows when `reply` comes in while the download is in `state`.
    spec fn fetch_next(
        &self,
        config: ClientConfigView,
        state: DownloadStateView,
        reply: ReplyView,
    ) -> DownloadStepView;

    /// The address below which the service answers.
    fn get_base_url(&self) -> (url: String)
        ensures
            url@ == self.base_url(),
    ;

    /// Begins to list the versions that meet `requirements`.
    fn get_all_version(&self, requirements: VersionRequirements) -> (step: ListStep)
        ensures
            step@ == self.listing_start(requirements@),
    ;

    /// Goes on with a listing that is in `state`, now that `reply` has come in.
    fn get_all_version_next(&self, state: ListState, reply: Reply) -> (step: ListStep)
        ensures
            step@ == self.listing_next(state@, reply@),
    ;

    /// Begins to fetch the build that `client_config` describes.
    fn download(&self, client_config: &ClientConfig) -> (step: DownloadStep)
        ensures
            step@ == self.fetch_start(client_config@),
    ;

    /// Goes on with a download that is in `state`, now that `reply` has come in.
    fn download_next(&self, client_config: &ClientConfig, state: DownloadState, reply: Reply) -> (step:
        DownloadStep)
        ensures
            step@ == self.fetch_next(client_config@, state@, reply@),
    ;
}

/// The client of one of the known providers.
#[derive(Debug)]
pub enum ProviderClient {
    AdoptOpenJDK(AdoptOpenJDKClient),
    Azul(AzulClient),
}

impl ProviderClient {
    /// The provider whose service this client talks to.
    pub open spec fn provider(&self) -> Provider {
        match self {
            ProviderClient::AdoptOpenJDK(_) => Provider::AdoptOpenJDK,
            ProviderClient::Azul(_) => Provider::Azul,
        }
    }
}

impl PackageClient for ProviderClient {
    open spec fn base_url(&self) -> Seq<char> {
        match self {
            ProviderClient::AdoptOpenJDK(c) => c.base_url(),
            ProviderClient::Azul(c) => c.base_url(),
        }
    }

    open spec fn listing_start(&self, requirements: RequirementsView) -> ListStepView {
        match self {
            ProviderClient::AdoptOpenJDK(c) => c.listing_start(requirements),
            ProviderClient::Azul(c) => c.listing_start(requirements),
        }
    }

    open spec fn listing_next(&self, state: ListStateView, reply: ReplyView) -> ListStepView {
        match self {
            ProviderClient::AdoptOpenJDK(c) => c.listing_next(state, reply),
            ProviderClient::Azul(c) => c.listing_next(state, reply),
        }
    }

    open spec fn fetch_start(&self, config: ClientConfigView) -> DownloadStepView {
        match self {
            ProviderClient::AdoptOpenJDK(c) => c.fetch_start(config),
            ProviderClient::Azul(c) => c.fetch_start(config),
        }
    }

    open spec fn fetch_next(
        &self,
        config: ClientConfigView,
        state: DownloadStateView,
        reply: ReplyView,
    ) -> DownloadStepView {
        match self {
            ProviderClient::AdoptOpenJDK(c) => c.fetch_next(config, state, reply),
            ProviderClient::Azul(c) => c.fetch_next(config, state, reply),
        }
    }

    fn get_base_url(&self) -> (url: String) {
        match self {
            ProviderClient::AdoptOpenJDK(c) => c.get_base_url(),
            ProviderClient::Azul(c) => c.get_base_url(),
        }
    }

    fn get_all_version(&self, requirements: VersionRequirements) -> (step: ListStep) {
        match self {
            ProviderClient::AdoptOpenJDK(c) => c.get_all_version(requirements),
            ProviderClient::Azul(c) => c.get_all_version(requirements),
        }
    }

    fn get_all_version_next(&self, state: ListState, reply: Reply) -> (step: ListStep) {
        match self {
            ProviderClient::AdoptOpenJDK(c) => c.get_all_version_next(state, reply),
            ProviderClient::Azul(c) => c.get_all_version_next(state, reply),
        }
    }

    fn download(&self, client_config: &ClientConfig) -> (step: DownloadStep) {
        match self {
            ProviderClient::AdoptOpenJDK(c) => c.download(client_config),
            ProviderClient::Azul(c) => c.download(client_config),
        }
    }

    fn download_next(&self, client_config: &ClientConfig, state: DownloadState, reply: Reply) -> (step:
        DownloadStep) {
        match self {
            ProviderClient::AdoptOpenJDK(c) => PackageClient::download_next(
                c,
                client_config,
                state,
                reply,
            ),
            ProviderClient::Azul(c) => PackageClient::download_next(c, client_config, state, reply),
        }
    }
}

/// The client of `provider`'s service.
pub fn get_client(provider: &Provider) -> (client: ProviderClient)
    ensures
        client.provider() == *provider,
        client.base_url() == provider_base_url(*provider),
{
    match provider {
        Provider::AdoptOpenJDK => ProviderClient::AdoptOpenJDK(AdoptOpenJDKClient::new()),
        Provider::Azul => ProviderClient::Azul(AzulClient::new()),
    }
}

} // verus!
