//! Where the program keeps its state, and what a build must be like.

use vstd::prelude::*;
use crate::error::JvcError;
use crate::loglevel::LogLevel;
use crate::path::{join, join_path, opt_text};
use crate::provider::{Provider, provider_base_url};
use crate::version::{Version, VersionView, clone_opt_text};

verus! {

/// The settings that every command shares.
#[derive(Debug)]
pub struct JvcConfig {
    /// The root directory of the program's state. It holds the aliases and
    /// all installed versions. Without it the root is `.jvc` in the user's home.
    pub base_dir: Option<String>,
    /// The provider that versions are listed and fetched from.
    pub java_provider: Provider,
    /// How much the program reports.
    pub log_level: LogLevel,
}

/// What a build must be like. A field that is left out gets the
/// provider's default when a request is composed.
#[derive(Debug)]
pub struct VersionRequirements {
    /// The processor architecture.
    pub arch: Option<String>,
    /// The kind of image, such as `jdk` or `jre`.
    pub image_type: Option<String>,
    /// The implementation of the virtual machine.
    pub jvm_impl: Option<String>,
    /// The heap size.
    pub heap_size: Option<String>,
    /// The release type, such as `ga` or `ea`.
    pub release_type: Option<String>,
    /// The vendor of the build.
    pub vendor: Option<String>,
    /// The project that the build belongs to.
    pub project: Option<String>,
    /// The operating system.
    pub os: Option<String>,
}

/// What a `VersionRequirements` holds, as plain values.
pub struct RequirementsView {
    pub arch: Option<Seq<char>>,
    pub image_type: Option<Seq<char>>,
    pub jvm_impl: Option<Seq<char>>,
    pub heap_size: Option<Seq<char>>,
    pub release_type: Option<Seq<char>>,
    pub vendor: Option<Seq<char>>,
    pub project: Option<Seq<char>>,
    pub os: Option<Seq<char>>,
}

impl View for VersionRequirements {
    type V = RequirementsView;

    open spec fn view(&self) -> RequirementsView {
        RequirementsView {
            arch: opt_text(self.arch),
            image_type: opt_text(self.image_type),
            jvm_impl: opt_text(self.jvm_impl),
            heap_size: opt_text(self.heap_size),
            release_type: opt_text(self.release_type),
            vendor: opt_text(self.vendor),
            project: opt_text(self.project),
            os: opt_text(self.os),
        }
    }
}

/// The requirements that name every field, for a host with the given
/// operating system and architecture.
pub open spec fn platform_requirements(os: Seq<char>, arch: Seq<char>) -> RequirementsView {
    RequirementsView {
        arch: Some(arch),
        image_type: Some("jdk"@),
        jvm_impl: Some("hotspot"@),
        heap_size: Some("normal"@),
        release_type: Some("ga"@),
        vendor: Some("adoptopenjdk"@),
        project: Some("jdk"@),
        os: Some(os),
    }
}

/// Requirements on a host with the operating system `host_os`: for the
/// AdoptOpenJDK service the host's operating system is named where none is.
pub open spec fn on_host(requirements: RequirementsView, provider: Provider, host_os: Seq<char>) -> RequirementsView {
    if provider == Provider::AdoptOpenJDK && requirements.os is None {
        RequirementsView { os: Some(host_os), ..requirements }
    } else {
        requirements
    }
}

impl VersionRequirements {
    /// The requirements that name every field, for a host with the given
    /// operating system and architecture.
    pub fn for_platform(os: &str, arch: &str) -> (r: Self)
        ensures
            r@ == platform_requirements(os@, arch@),
    {
        Self {
            arch: Some(arch.to_owned()),
            image_type: Some("jdk".to_owned()),
            jvm_impl: Some("hotspot".to_owned()),
            heap_size: Some("normal".to_owned()),
            release_type: Some("ga".to_owned()),
            vendor: Some("adoptopenjdk".to_owned()),
            project: Some("jdk".to_owned()),
            os: Some(os.to_owned()),
        }
    }

    /// These requirements on a host with the operating system `host_os`.
    /// The AdoptOpenJDK service is asked for builds for the host's
    /// operating system unless another is named; requests to the other
    /// providers are left as they are.
    pub fn on_host(self, provider: Provider, host_os: &str) -> (r: Self)
        ensures
            r@ == on_host(self@, provider, host_os@),
    {
        if provider == Provider::AdoptOpenJDK && self.os.is_none() {
            Self {
                arch: self.arch,
                image_type: self.image_type,
                jvm_impl: self.jvm_impl,
                heap_size: self.heap_size,
                release_type: self.release_type,
                vendor: self.vendor,
                project: self.project,
                os: Some(host_os.to_owned()),
            }
        } else {
            self
        }
    }

    /// The requirements that name no field.
    pub fn unspecified() -> (r: Self)
        ensures
            r@ == (RequirementsView {
                arch: None,
                image_type: None,
                jvm_impl: None,
                heap_size: None,
                release_type: None,
                vendor: None,
                project: None,
                os: None,
            }),
    {
        Self {
            arch: None,
            image_type: None,
            jvm_impl: None,
            heap_size: None,
            release_type: None,
            vendor: None,
            project: None,
            os: None,
        }
    }
}

impl Default for VersionRequirements {
    /// The requirements of a 64-bit Linux host.
    fn default() -> (r: Self)
        ensures
            r@ == platform_requirements("linux"@, "x64"@),
    {
        VersionRequirements::for_platform("linux", "x64")
    }
}

impl Clone for VersionRequirements {
    fn clone(&self) -> (r: Self)
        ensures
            r@ == self@,
    {
        Self {
            arch: clone_opt_text(&self.arch),
            image_type: clone_opt_text(&self.image_type),
            jvm_impl: clone_opt_text(&self.jvm_impl),
            heap_size: clone_opt_text(&self.heap_size),
            release_type: clone_opt_text(&self.release_type),
            vendor: clone_opt_text(&self.vendor),
            project: clone_opt_text(&self.project),
            os: clone_opt_text(&self.os),
        }
    }
}

/// All that a provider's client needs to fetch one build.
pub struct ClientConfig {
    /// What the build must be like.
    pub requirements: VersionRequirements,
    /// The directory that the artifact is written to.
    pub download_dir: String,
    /// The address below which the provider's service answers.
    pub base_url: String,
    /// The version to fetch.
    pub version: Version,
}

/// What a `ClientConfig` holds, as plain values.
pub struct ClientConfigView {
    pub requirements: RequirementsView,
    pub download_dir: Seq<char>,
    pub base_url: Seq<char>,
    pub version: VersionView,
}

impl View for ClientConfig {
    type V = ClientConfigView;

    open spec fn view(&self) -> ClientConfigView {
        ClientConfigView {
            requirements: self.requirements@,
            download_dir: self.download_dir@,
            base_url: self.base_url@,
            version: self.version@,
        }
    }
}

/// The root directory of the program's state: the configured one, or else
/// `.jvc` below the user's home. Without either there is none.
pub open spec fn base_dir_from(configured: Option<Seq<char>>, home: Option<Seq<char>>) -> Result<
    Seq<char>,
    JvcError,
> {
    match configured {
        Some(dir) => Ok(dir),
        None => match home {
            Some(h) => Ok(join(h, ".jvc"@)),
            None => Err(JvcError::NoBaseDirectory),
        },
    }
}

/// The directory below the root that holds one directory for each installed version.
pub open spec fn installation_dir(base: Seq<char>) -> Seq<char> {
    join(base, "java-versions"@)
}

/// The directory that artifacts are fetched to. It lies among the installed
/// versions and is emptied at every start of the program.
pub open spec fn download_dir(base: Seq<char>) -> Seq<char> {
    join(installation_dir(base), ".downloads"@)
}

/// The directory below the root that holds one link for each alias.
pub open spec fn aliases_dir(base: Seq<char>) -> Seq<char> {
    join(base, "aliases"@)
}

/// The link of the alias `default`, which marks the active version.
pub open spec fn default_version_dir(base: Seq<char>) -> Seq<char> {
    join(aliases_dir(base), "default"@)
}

/// The view of a result that holds a text.
pub open spec fn text_result(r: Result<String, JvcError>) -> Result<Seq<char>, JvcError> {
    match r {
        Ok(s) => Ok(s@),
        Err(e) => Err(e),
    }
}

/// `f` applied to the directory that `r` holds, if it holds one.
pub open spec fn below(r: Result<Seq<char>, JvcError>, f: spec_fn(Seq<char>) -> Seq<char>) -> Result<
    Seq<char>,
    JvcError,
> {
    match r {
        Ok(base) => Ok(f(base)),
        Err(e) => Err(e),
    }
}

/// Asks `dirs::home_dir` for the user's home directory and hands it on as
/// text. Nothing is claimed of the answer: it depends on the user's
/// environment, and there may be none. A home that is not valid Unicode
/// counts as none.
#[verifier::external_body]
fn home_dir() -> (home: Option<String>) {
    dirs::home_dir().and_then(|p| p.into_os_string().into_string().ok())
}

/// The root directory that follows from a configured directory and the user's home.
pub fn resolve_base_dir(configured: &Option<String>, home: Option<String>) -> (r: Result<
    String,
    JvcError,
>)
    ensures
        text_result(r) == base_dir_from(opt_text(*configured), opt_text(home)),
{
    match configured {
        Some(dir) => Ok(dir.clone()),
        None => match home {
            Some(h) => Ok(join_path(h.as_str(), ".jvc")),
            None => Err(JvcError::NoBaseDirectory),
        },
    }
}

impl Default for JvcConfig {
    fn default() -> (c: Self)
        ensures
            c.base_dir is None,
            c.java_provider == Provider::AdoptOpenJDK,
            c.log_level == LogLevel::Info,
    {
        Self { base_dir: None, java_provider: Provider::AdoptOpenJDK, log_level: LogLevel::Info }
    }
}

impl JvcConfig {
    /// The root directory of the program's state. A configured directory is
    /// returned as it is. Otherwise the user's home is asked for, and the
    /// root is `.jvc` below whatever home was found.
    pub fn get_base_dir_or_default(&self) -> (r: Result<String, JvcError>)
        ensures
            exists|home: Option<Seq<char>>|
                text_result(r) == #[trigger] base_dir_from(opt_text(self.base_dir), home),
            self.base_dir matches Some(dir) ==> text_result(r) == Ok::<Seq<char>, JvcError>(dir@),
    {
        if self.base_dir.is_some() {
            let r = resolve_base_dir(&self.base_dir, None);
            assert(text_result(r) == base_dir_from(opt_text(self.base_dir), None));
            r
        } else {
            let home = home_dir();
            let ghost h = opt_text(home);
            let r = resolve_base_dir(&self.base_dir, home);
            assert(text_result(r) == base_dir_from(opt_text(self.base_dir), h));
            r
        }
    }

    /// The directory that holds one directory for each installed version.
    pub fn get_installation_dir(&self) -> (r: Result<String, JvcError>)
        ensures
            exists|home: Option<Seq<char>>|
                text_result(r) == below(
                    #[trigger] base_dir_from(opt_text(self.base_dir), home),
                    |b: Seq<char>| installation_dir(b),
                ),
            self.base_dir matches Some(dir) ==> text_result(r) == Ok::<Seq<char>, JvcError>(
                installation_dir(dir@),
            ),
    {
        match self.get_base_dir_or_default() {
            Ok(base) => Ok(join_path(base.as_str(), "java-versions")),
            Err(e) => Err(e),
        }
    }

    /// The directory that artifacts are fetched to.
    pub fn get_download_dir(&self) -> (r: Result<String, JvcError>)
        ensures
            exists|home: Option<Seq<char>>|
                text_result(r) == below(
                    #[trigger] base_dir_from(opt_text(self.base_dir), home),
                    |b: Seq<char>| download_dir(b),
                ),
            self.base_dir matches Some(dir) ==> text_result(r) == Ok::<Seq<char>, JvcError>(
                download_dir(dir@),
            ),
    {
        match self.get_base_dir_or_default() {
            Ok(base) => Ok(
                join_path(join_path(base.as_str(), "java-versions").as_str(), ".downloads"),
            ),
            Err(e) => Err(e),
        }
    }

    /// The link of the alias `default`.
    pub fn default_version_dir(&self) -> (r: Result<String, JvcError>)
        ensures
            exists|home: Option<Seq<char>>|
                text_result(r) == below(
                    #[trigger] base_dir_from(opt_text(self.base_dir), home),
                    |b: Seq<char>| default_version_dir(b),
                ),
            self.base_dir matches Some(dir) ==> text_result(r) == Ok::<Seq<char>, JvcError>(
                default_version_dir(dir@),
            ),
    {
        match self.get_base_dir_or_default() {
            Ok(base) => Ok(join_path(join_path(base.as_str(), "aliases").as_str(), "default")),
            Err(e) => Err(e),
        }
    }

    /// The directory that holds one link for each alias.
    pub fn aliases_dir(&self) -> (r: Result<String, JvcError>)
        ensures
            exists|home: Option<Seq<char>>|
                text_result(r) == below(
                    #[trigger] base_dir_from(opt_text(self.base_dir), home),
                    |b: Seq<char>| aliases_dir(b),
                ),
            self.base_dir matches Some(dir) ==> text_result(r) == Ok::<Seq<char>, JvcError>(
                aliases_dir(dir@),
            ),
    {
        match self.get_base_dir_or_default() {
            Ok(base) => Ok(join_path(base.as_str(), "aliases")),
            Err(e) => Err(e),
        }
    }
}

/// The view of a result that holds a client's configuration.
pub open spec fn client_config_result(r: Result<ClientConfig, JvcError>) -> Result<
    ClientConfigView,
    JvcError,
> {
    match r {
        Ok(c) => Ok(c@),
        Err(e) => Err(e),
    }
}

/// The configuration with which a provider's client fetches `version` into `download_dir`.
pub open spec fn client_config_for(
    provider: Provider,
    download_dir: Seq<char>,
    version: VersionView,
    requirements: RequirementsView,
) -> ClientConfigView {
    ClientConfigView { requirements, download_dir, base_url: provider_base_url(provider), version }
}

/// The configuration with which the configured provider's client fetches
/// `version`: the provider's address, the program's download directory, and
/// the version and requirements as they were given.
pub fn new_client_config(config: &JvcConfig, version: Version, requirements: VersionRequirements) -> (r:
    Result<ClientConfig, JvcError>)
    ensures
        match r {
            Ok(c) => {
                &&& c@.base_url == provider_base_url(config.java_provider)
                &&& c@.version == version@
                &&& c@.requirements == requirements@
                &&& exists|home: Option<Seq<char>>|
                    Ok::<Seq<char>, JvcError>(c@.download_dir) == below(
                        #[trigger] base_dir_from(opt_text(config.base_dir), home),
                        |b: Seq<char>| download_dir(b),
                    )
            },
            Err(e) => e == JvcError::NoBaseDirectory && config.base_dir is None,
        },
        config.base_dir matches Some(dir) ==> client_config_result(r) == Ok::<
            ClientConfigView,
            JvcError,
        >(client_config_for(config.java_provider, download_dir(dir@), version@, requirements@)),
{
    match config.get_download_dir() {
        Ok(download_dir) => Ok(
            ClientConfig {
                base_url: config.java_provider.base_url(),
                requirements,
                download_dir,
                version,
            },
        ),
        Err(e) => Err(e),
    }
}

} // verus!
