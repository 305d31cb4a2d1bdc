//! A client without a service behind it.

use vstd::prelude::*;
use crate::client::package_client::{
    DownloadState, DownloadStateView, DownloadStep, DownloadStepView, ListState, ListStateView,
    ListStep, ListStepView, PackageClient, Reply, ReplyView,
};
use crate::config::{ClientConfig, ClientConfigView, RequirementsView, VersionRequirements};
use crate::error::JvcError;

verus! {

/// A client that knows no service: its address is empty, and every listing
/// and every download ends at once with `ResolutionError`.
#[derive(Debug)]
pub struct GithubClient {}

impl GithubClient {
    /// A client without a service.
    pub fn new() -> (client: Self)
        ensures
            client.base_url() == Seq::<char>::empty(),
    {
        GithubClient {  }
    }
}

impl PackageClient for GithubClient {
    open spec fn base_url(&self) -> Seq<char> {
        Seq::<char>::empty()
    }

    open spec fn listing_start(&self, requirements: RequirementsView) -> ListStepView {
        ListStepView::Failed(JvcError::ResolutionError)
    }

    open spec fn listing_next(&self, state: ListStateView, reply: ReplyView) -> ListStepView {
        ListStepView::Failed(JvcError::ResolutionError)
    }

    open spec fn fetch_start(&self, config: ClientConfigView) -> DownloadStepView {
        DownloadStepView::Failed(JvcError::ResolutionError)
    }

    open spec fn fetch_next(
        &self,
        config: ClientConfigView,
        state: DownloadStateView,
        reply: ReplyView,
    ) -> DownloadStepView {
        DownloadStepView::Failed(JvcError::ResolutionError)
    }

    fn get_base_url(&self) -> (url: String) {
        String::new()
    }

    fn get_all_version(&self, _requirements: VersionRequirements) -> (step: ListStep) {
        ListStep::Failed(JvcError::ResolutionError)
    }

    fn get_all_version_next(&self, _state: ListState, _reply: Reply) -> (step: ListStep) {
        ListStep::Failed(JvcError::ResolutionError)
    }

    fn download(&self, _config: &ClientConfig) -> (step: DownloadStep) {
        DownloadStep::Failed(JvcError::ResolutionError)
    }

    fn download_next(&self, _config: &ClientConfig, _state: DownloadState, _reply: Reply) -> (step:
        DownloadStep) {
        DownloadStep::Failed(JvcError::ResolutionError)
    }
}

} // verus!
