//! The client of the AdoptOpenJDK service. One answer carries both the
//! available releases and the long-term-support ones among them. A build is
//! reached through the first binary of the first matching release and one
//! redirect to the artifact.

use vstd::prelude::*;
use crate::client::package_client::{
    DownloadResponse, DownloadResponseView, DownloadState, DownloadStateView, DownloadStep,
    DownloadStepView, ListState, ListStateView, ListStep, ListStepView, Listing, ListingView,
    PackageClient, Reply, ReplyView, Request, RequestView, Shape, misfit, misfit_of,
};
use crate::config::{ClientConfig, ClientConfigView, RequirementsView, VersionRequirements};
use crate::error::JvcError;
use crate::path::{join, join_path, opt_text};
use crate::provider::{Provider, provider_base_url};
use crate::version::{Version, VersionView, numbered};

verus! {

/// The client of the AdoptOpenJDK service.
#[derive(Debug)]
pub struct AdoptOpenJDKClient;

/// The releases that the service offers.
#[derive(Debug)]
pub struct AdoptOpenJDKVersion {
    /// The long-term-support releases among the available ones.
    pub available_lts_releases: Vec<u32>,
    /// The major numbers of all available releases.
    pub available_releases: Vec<u32>,
    pub most_recent_feature_release: u32,
    pub most_recent_feature_version: u32,
    pub most_recent_lts: u32,
    pub tip_version: u32,
}

/// What the client reads of an `AdoptOpenJDKVersion`.
pub struct ReleasesView {
    pub available_lts_releases: Seq<u32>,
    pub available_releases: Seq<u32>,
}

impl View for AdoptOpenJDKVersion {
    type V = ReleasesView;

    open spec fn view(&self) -> ReleasesView {
        ReleasesView {
            available_lts_releases: self.available_lts_releases@,
            available_releases: self.available_releases@,
        }
    }
}

/// A package as the service describes it.
#[derive(Debug)]
pub struct PackageInfo {
    /// The address that redirects to the artifact.
    pub link: String,
    /// The name of the package.
    pub name: String,
    /// The size of the artifact in bytes.
    pub size: u32,
}

/// What a `PackageInfo` holds, as plain values.
pub struct PackageInfoView {
    pub link: Seq<char>,
    pub name: Seq<char>,
    pub size: u32,
}

impl View for PackageInfo {
    type V = PackageInfoView;

    open spec fn view(&self) -> PackageInfoView {
        PackageInfoView { link: self.link@, name: self.name@, size: self.size }
    }
}

/// One binary of a release.
#[derive(Debug)]
pub struct BinaryInfo {
    /// The package that holds the binary.
    pub package: PackageInfo,
}

impl DeepView for BinaryInfo {
    type V = PackageInfoView;

    open spec fn deep_view(&self) -> PackageInfoView {
        self.package@
    }
}

/// One release with its binaries, in the order of the answer.
#[derive(Debug)]
pub struct BinariesInfo {
    /// The binaries of the release.
    pub binaries: Vec<BinaryInfo>,
}

impl DeepView for BinariesInfo {
    type V = Seq<PackageInfoView>;

    open spec fn deep_view(&self) -> Seq<PackageInfoView> {
        self.binaries.deep_view()
    }
}

/// The text of `t`, or `default` where `t` is absent.
pub open spec fn text_or(t: Option<Seq<char>>, default: Seq<char>) -> Seq<char> {
    match t {
        Some(s) => s,
        None => default,
    }
}

/// The text of `t`, or `default` where `t` is absent.
pub fn or_default(t: &Option<String>, default: &str) -> (s: String)
    ensures
        s@ == text_or(opt_text(*t), default@),
{
    match t {
        Some(s) => s.clone(),
        None => default.to_owned(),
    }
}

/// The address that answers with the available releases.
pub open spec fn available_releases_url(base: Seq<char>) -> Seq<char> {
    base + "/info/available_releases"@
}

/// The address that answers with the newest release of `version` that meets
/// `requirements`. A requirement that is left out takes the service's default.
pub open spec fn download_url(base: Seq<char>, version: Seq<char>, requirements: RequirementsView) -> Seq<
    char,
> {
    base + "/assets/feature_releases/"@ + version + "/"@ + text_or(
        requirements.release_type,
        "ga"@,
    ) + "?architecture="@ + text_or(requirements.arch, "x64"@) + "&heap_size="@ + text_or(
        requirements.heap_size,
        "normal"@,
    ) + "&image_type="@ + text_or(requirements.image_type, "jdk"@) + "&jvm_impl="@ + text_or(
        requirements.jvm_impl,
        "hotspot"@,
    ) + "&os="@ + text_or(requirements.os, "linux"@) + "&page=0&page_size=1&project="@ + text_or(
        requirements.project,
        "jdk"@,
    ) + "&sort_method=DEFAULT&sort_order=DESC&vendor="@ + text_or(
        requirements.vendor,
        "adoptopenjdk"@,
    )
}

/// The versions of a releases answer: one for each available release, in
/// the answer's order, flagged where the release is among the
/// long-term-support ones.
pub open spec fn release_versions(releases: ReleasesView) -> Seq<VersionView> {
    Seq::new(
        releases.available_releases.len(),
        |i: int|
            numbered(
                releases.available_releases[i] as nat,
                releases.available_lts_releases.contains(releases.available_releases[i]),
                Provider::AdoptOpenJDK,
            ),
    )
}

/// The package that a binaries answer resolves to: that of the first binary
/// of the first release. An answer without releases, or whose first release
/// has no binary, resolves to nothing.
pub open spec fn first_package(releases: Seq<Seq<PackageInfoView>>) -> Option<PackageInfoView> {
    if releases.len() > 0 && releases[0].len() > 0 {
        Some(releases[0][0])
    } else {
        None
    }
}

/// What `url::Url::parse` makes of a text: the address in its normal form,
/// or nothing where the text is no absolute address.
pub uninterp spec fn normalized_url(text: Seq<char>) -> Option<Seq<char>>;

/// Hands `text` to `reqwest::Url::parse`, which is `url::Url::parse`, and
/// gives the address back as text in the form in which `Url` keeps it. The
/// parser reads nothing but its argument; where it refuses the text, there
/// is no address.
#[verifier::external_body]
fn parse_url(text: &str) -> (url: Option<String>)
    ensures
        opt_text(url) == normalized_url(text@),
{
    match reqwest::Url::parse(text) {
        Ok(url) => Some(url.into()),
        Err(_) => None,
    }
}

/// The address that a probe's answer leads to, where `target` is what the
/// `Location` header holds: absent without the header, empty where the
/// header is no address. Only a status of 302 with an address leads anywhere.
pub open spec fn redirect_target(status: u16, target: Option<Option<Seq<char>>>) -> Result<
    Seq<char>,
    JvcError,
> {
    if status == 302 {
        match target {
            Some(Some(url)) => Ok(url),
            _ => Err(JvcError::ResolutionError),
        }
    } else {
        Err(JvcError::ResolutionError)
    }
}

/// What the `Location` header of a probe's answer holds, once read as an address.
pub open spec fn parsed_location(location: Option<Seq<char>>) -> Option<Option<Seq<char>>> {
    match location {
        Some(l) => Some(normalized_url(l)),
        None => None,
    }
}

/// The view of an optional, optional text.
pub open spec fn opt_opt_text(t: Option<Option<String>>) -> Option<Option<Seq<char>>> {
    match t {
        Some(inner) => Some(opt_text(inner)),
        None => None,
    }
}

/// The view of a result that holds a text.
pub open spec fn link_result(r: Result<String, JvcError>) -> Result<Seq<char>, JvcError> {
    match r {
        Ok(s) => Ok(s@),
        Err(e) => Err(e),
    }
}

/// The first step of a listing: ask for the available releases.
pub open spec fn adopt_listing_start(base: Seq<char>) -> ListStepView {
    ListStepView::Ask {
        request: RequestView::Get { url: available_releases_url(base), shape: Shape::Releases },
        state: ListStateView::AwaitReleases,
    }
}

/// The step after a reply to a listing: the releases answer ends it with
/// its versions; anything else ends it in failure.
pub open spec fn adopt_listing_next(state: ListStateView, reply: ReplyView) -> ListStepView {
    match (state, reply) {
        (ListStateView::AwaitReleases, ReplyView::Releases(releases)) => ListStepView::Done(
            ListingView { versions: release_versions(releases), degraded: false },
        ),
        _ => ListStepView::Failed(misfit(reply)),
    }
}

/// The file that a download writes: named by the version's value, in the download directory.
pub open spec fn download_path(config: ClientConfigView) -> Seq<char> {
    join(config.download_dir, config.version.value)
}

/// The first step of a download: ask for the releases with their binaries.
pub open spec fn adopt_fetch_start(config: ClientConfigView) -> DownloadStepView {
    DownloadStepView::Ask {
        request: RequestView::Get {
            url: download_url(config.base_url, config.version.value, config.requirements),
            shape: Shape::Binaries,
        },
        state: DownloadStateView::AwaitBinaries,
    }
}

/// The step after a reply to a download. The binaries answer is resolved to
/// its first package, whose link is probed; the probe must be a redirect to
/// an address, which is then stored; and the stored body ends the download.
/// A binaries answer without a package, and a probe that is no redirect to
/// an address, end it with `ResolutionError`.
pub open spec fn adopt_fetch_next(
    config: ClientConfigView,
    state: DownloadStateView,
    reply: ReplyView,
) -> DownloadStepView {
    match (state, reply) {
        (DownloadStateView::AwaitBinaries, ReplyView::Binaries(releases)) => match first_package(
            releases,
        ) {
            Some(package) => DownloadStepView::Ask {
                request: RequestView::Probe { url: package.link },
                state: DownloadStateView::AwaitRedirect {
                    package_name: package.name,
                    total_size: package.size,
                },
            },
            None => DownloadStepView::Failed(JvcError::ResolutionError),
        },
        (
            DownloadStateView::AwaitRedirect { package_name, total_size },
            ReplyView::Redirect { status, location },
        ) => match redirect_target(status, parsed_location(location)) {
            Ok(url) => DownloadStepView::Ask {
                request: RequestView::Store { url, path: download_path(config), total_size },
                state: DownloadStateView::AwaitBody { package_name },
            },
            Err(e) => DownloadStepView::Failed(e),
        },
        (DownloadStateView::AwaitBody { package_name }, ReplyView::Stored) => DownloadStepView::Done(
            DownloadResponseView { download_path: download_path(config), package_name },
        ),
        _ => DownloadStepView::Failed(misfit(reply)),
    }
}

/// A probe's answer without a `Location` header ends the download with
/// `ResolutionError`, whatever its status and whatever package is fetched.
pub proof fn lemma_redirect_without_location_fails(
    config: ClientConfigView,
    package_name: Seq<char>,
    total_size: u32,
    status: u16,
)
    ensures
        adopt_fetch_next(
            config,
            DownloadStateView::AwaitRedirect { package_name, total_size },
            ReplyView::Redirect { status, location: None },
        ) == DownloadStepView::Failed(JvcError::ResolutionError),
{
}

/// Only a status of 302 leads on: a probe's answer with any other status
/// ends the download with `ResolutionError`.
pub proof fn lemma_redirect_needs_status_302(
    config: ClientConfigView,
    package_name: Seq<char>,
    total_size: u32,
    status: u16,
    location: Option<Seq<char>>,
)
    requires
        status != 302,
    ensures
        adopt_fetch_next(
            config,
            DownloadStateView::AwaitRedirect { package_name, total_size },
            ReplyView::Redirect { status, location },
        ) == DownloadStepView::Failed(JvcError::ResolutionError),
{
}

impl AdoptOpenJDKClient {
    /// The client of the AdoptOpenJDK service.
    pub fn new() -> (client: Self)
        ensures
            client.base_url() == provider_base_url(Provider::AdoptOpenJDK),
    {
        AdoptOpenJDKClient {  }
    }
}

/// The package of the first binary of a release, if the release has a binary.
pub open spec fn leading_package(binaries: Seq<PackageInfoView>) -> Option<PackageInfoView> {
    if binaries.len() > 0 {
        Some(binaries[0])
    } else {
        None
    }
}

/// The view of an optional borrowed text.
pub open spec fn opt_str(t: Option<&str>) -> Option<Seq<char>> {
    match t {
        Some(s) => Some(s@),
        None => None,
    }
}

/// The size of the first binary's package; nothing for a release without binaries.
pub fn get_total_size(binary_info: &BinariesInfo) -> (size: Option<u32>)
    ensures
        size == match leading_package(binary_info.deep_view()) {
            Some(package) => Some(package.size),
            None => None,
        },
{
    if binary_info.binaries.len() > 0 {
        Some(binary_info.binaries[0].package.size)
    } else {
        None
    }
}

/// The name of the first binary's package; nothing for a release without binaries.
pub fn get_package_name(binary_info: &BinariesInfo) -> (name: Option<&str>)
    ensures
        opt_str(name) == match leading_package(binary_info.deep_view()) {
            Some(package) => Some(package.name),
            None => None,
        },
{
    if binary_info.binaries.len() > 0 {
        Some(binary_info.binaries[0].package.name.as_str())
    } else {
        None
    }
}

/// The versions of a releases answer.
pub fn convert_adoptopenjdk_to_version(result: AdoptOpenJDKVersion) -> (versions: Result<
    Vec<Version>,
    JvcError,
>)
    ensures
        versions matches Ok(v) && v.deep_view() == release_versions(result@),
{
    let mut versions: Vec<Version> = Vec::new();
    let mut i: usize = 0;
    while i < result.available_releases.len()
        invariant
            i <= result.available_releases.len(),
            versions.deep_view() == release_versions(result@).take(i as int),
        decreases result.available_releases.len() - i,
    {
        let ghost before = versions.deep_view();
        let v = result.available_releases[i];
        let lts = contains_number(&result.available_lts_releases, v);
        versions.push(Version::new(v, lts, Provider::AdoptOpenJDK));
        assert(versions.deep_view() =~= before.push(release_versions(result@)[i as int]));
        assert(versions.deep_view() =~= release_versions(result@).take(i + 1));
        i += 1;
    }
    assert(versions.deep_view() =~= release_versions(result@));
    Ok(versions)
}

/// Whether `n` is among `numbers`.
pub fn contains_number(numbers: &Vec<u32>, n: u32) -> (found: bool)
    ensures
        found == numbers@.contains(n),
{
    let mut i: usize = 0;
    while i < numbers.len()
        invariant
            i <= numbers.len(),
            forall|j: int| 0 <= j < i ==> numbers@[j] != n,
        decreases numbers.len() - i,
    {
        if numbers[i] == n {
            return true;
        }
        i += 1;
    }
    false
}

/// The address that a probe's answer leads to, where `target` is what its
/// `Location` header holds once read as an address.
pub fn redirect_link(status: u16, target: Option<Option<String>>) -> (link: Result<String, JvcError>)
    ensures
        link_result(link) == redirect_target(status, opt_opt_text(target)),
{
    if status == 302 {
        match target {
            Some(Some(url)) => Ok(url),
            _ => Err(JvcError::ResolutionError),
        }
    } else {
        Err(JvcError::ResolutionError)
    }
}

/// The address of the artifact that a probe's answer leads to. A status
/// other than 302, a missing `Location` header and a header that is no
/// address all end in `ResolutionError`.
pub fn get_link_after_redirect(status: u16, location: &Option<String>) -> (link: Result<
    String,
    JvcError,
>)
    ensures
        link_result(link) == redirect_target(status, parsed_location(opt_text(*location))),
        status != 302 || location is None ==> link == Err::<String, JvcError>(
            JvcError::ResolutionError,
        ),
{
    let target = match location {
        Some(l) => Some(parse_url(l.as_str())),
        None => None,
    };
    redirect_link(status, target)
}

/// The address that answers with the newest release of `version` that meets `requirements`.
pub fn download_package_url(api_base_url: String, requirements: VersionRequirements, version: &Version) -> (url:
    String)
    ensures
        url@ == download_url(api_base_url@, version@.value, requirements@),
{
    compose_download_url(requirements, api_base_url, version)
}

/// The address that answers with the newest release of `version` that meets `requirements`.
pub fn compose_download_url(requirements: VersionRequirements, api_base_url: String, version: &Version) -> (url:
    String)
    ensures
        url@ == download_url(api_base_url@, version@.value, requirements@),
{
    api_base_url.concat("/assets/feature_releases/").concat(version.value.as_str()).concat(
        "/",
    ).concat(or_default(&requirements.release_type, "ga").as_str()).concat("?architecture=").concat(
        or_default(&requirements.arch, "x64").as_str(),
    ).concat("&heap_size=").concat(or_default(&requirements.heap_size, "normal").as_str()).concat(
        "&image_type=",
    ).concat(or_default(&requirements.image_type, "jdk").as_str()).concat("&jvm_impl=").concat(
        or_default(&requirements.jvm_impl, "hotspot").as_str(),
    ).concat("&os=").concat(or_default(&requirements.os, "linux").as_str()).concat(
        "&page=0&page_size=1&project=",
    ).concat(or_default(&requirements.project, "jdk").as_str()).concat(
        "&sort_method=DEFAULT&sort_order=DESC&vendor=",
    ).concat(or_default(&requirements.vendor, "adoptopenjdk").as_str())
}

impl PackageClient for AdoptOpenJDKClient {
    open spec fn base_url(&self) -> Seq<char> {
        provider_base_url(Provider::AdoptOpenJDK)
    }

    open spec fn listing_start(&self, requirements: RequirementsView) -> ListStepView {
        adopt_listing_start(self.base_url())
    }

    open spec fn listing_next(&self, state: ListStateView, reply: ReplyView) -> ListStepView {
        adopt_listing_next(state, reply)
    }

    open spec fn fetch_start(&self, config: ClientConfigView) -> DownloadStepView {
        adopt_fetch_start(config)
    }

    open spec fn fetch_next(
        &self,
        config: ClientConfigView,
        state: DownloadStateView,
        reply: ReplyView,
    ) -> DownloadStepView {
        adopt_fetch_next(config, state, reply)
    }

    fn get_base_url(&self) -> (url: String) {
        Provider::AdoptOpenJDK.base_url()
    }

    fn get_all_version(&self, _requirements: VersionRequirements) -> (step: ListStep) {
        let url = self.get_base_url().concat("/info/available_releases");
        ListStep::Ask {
            request: Request::Get { url, shape: Shape::Releases },
            state: ListState::AwaitReleases,
        }
    }

    fn get_all_version_next(&self, state: ListState, reply: Reply) -> (step: ListStep) {
        match (state, reply) {
            (ListState::AwaitReleases, Reply::Releases(releases)) => {
                match convert_adoptopenjdk_to_version(releases) {
                    Ok(versions) => ListStep::Done(Listing { versions, degraded: false }),
                    Err(e) => ListStep::Failed(e),
                }
            },
            (_, reply) => ListStep::Failed(misfit_of(&reply)),
        }
    }

    fn download(&self, client_config: &ClientConfig) -> (step: DownloadStep) {
        let url = download_package_url(
            client_config.base_url.clone(),
            client_config.requirements.clone(),
            &client_config.version,
        );
        DownloadStep::Ask {
            request: Request::Get { url, shape: Shape::Binaries },
            state: DownloadState::AwaitBinaries,
        }
    }

    fn download_next(&self, client_config: &ClientConfig, state: DownloadState, reply: Reply) -> (step:
        DownloadStep) {
        match (state, reply) {
            (DownloadState::AwaitBinaries, Reply::Binaries(releases)) => {
                if releases.len() == 0 {
                    return DownloadStep::Failed(JvcError::ResolutionError);
                }
                let bin = &releases[0];
                match (get_total_size(bin), get_package_name(bin)) {
                    (Some(total_size), Some(name)) => {
                        let package_name = name.to_owned();
                        let package_link = bin.binaries[0].package.link.clone();
                        DownloadStep::Ask {
                            request: Request::Probe { url: package_link },
                            state: DownloadState::AwaitRedirect { package_name, total_size },
                        }
                    },
                    _ => DownloadStep::Failed(JvcError::ResolutionError),
                }
            },
            (
                DownloadState::AwaitRedirect { package_name, total_size },
                Reply::Redirect { status, location },
            ) => {
                match get_link_after_redirect(status, &location) {
                    Ok(url) => {
                        let path = join_path(
                            client_config.download_dir.as_str(),
                            client_config.version.value.as_str(),
                        );
                        DownloadStep::Ask {
                            request: Request::Store { url, path, total_size },
                            state: DownloadState::AwaitBody { package_name },
                        }
                    },
                    Err(e) => DownloadStep::Failed(e),
                }
            },
            (DownloadState::AwaitBody { package_name }, Reply::Stored) => {
                let download_path = join_path(
                    client_config.download_dir.as_str(),
                    client_config.version.value.as_str(),
                );
                DownloadStep::Done(DownloadResponse { download_path, package_name })
            },
            (_, reply) => DownloadStep::Failed(misfit_of(&reply)),
        }
    }
}

} // verus!
