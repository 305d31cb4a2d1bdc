use jvc::config::{new_client_config, resolve_base_dir, JvcConfig, VersionRequirements};
use jvc::error::JvcError;
use jvc::loglevel::LogLevel;
use jvc::provider::Provider;
use jvc::version::Version;

fn home() -> Option<String> {
    dirs::home_dir().map(|p| p.to_str().unwrap().to_owned())
}

fn rooted(provider: Provider) -> JvcConfig {
    JvcConfig {
        base_dir: Some("/home/alice/.jvc".to_owned()),
        java_provider: provider,
        log_level: LogLevel::Info,
    }
}

#[test]
fn create_new_client_for_azul_should_be_ok() {
    let client = new_client_config(
        &JvcConfig {
            base_dir: home(),
            java_provider: Provider::Azul,
            log_level: LogLevel::Debug,
        },
        Version::new(10, false, Provider::Azul),
        VersionRequirements::default(),
    )
    .unwrap();
    assert_eq!(
        client.base_url,
        "https://api.azul.com/zulu/download/community/v1.0".to_owned()
    );
    assert_eq!(
        client.requirements.jvm_impl,
        VersionRequirements::default().jvm_impl
    )
}

#[test]
fn create_new_client_for_adoptopenjdk_should_be_ok() {
    let client = new_client_config(
        &JvcConfig {
            base_dir: home(),
            java_provider: Provider::AdoptOpenJDK,
            log_level: LogLevel::Debug,
        },
        Version::new(10, false, Provider::AdoptOpenJDK),
        VersionRequirements::default(),
    )
    .unwrap();
    assert_eq!(
        client.base_url,
        "https://api.adoptopenjdk.net/v3".to_owned()
    );
    assert_eq!(
        client.requirements.jvm_impl,
        VersionRequirements::default().jvm_impl
    )
}

#[test]
fn aliases_dir_should_be_ok() {
    let aliases_dir = JvcConfig::default().aliases_dir().unwrap();
    assert!(aliases_dir.contains("aliases"));
}

#[test]
fn download_dir_should_contain_downloads() {
    let downloads_path = JvcConfig::default().get_download_dir().unwrap();
    let downloads_as_str = downloads_path.as_str();
    assert!(downloads_as_str.contains("downloads"));
    assert!(downloads_as_str.contains("java-versions"))
}

#[test]
fn default_root_is_below_the_home() {
    let base = JvcConfig::default().get_base_dir_or_default().unwrap();
    let expected = dirs::home_dir().unwrap().join(".jvc");
    assert_eq!(base, expected.to_str().unwrap());
}

#[test]
fn configured_root_is_taken_as_it_is() {
    let config = rooted(Provider::Azul);
    assert_eq!(config.get_base_dir_or_default(), Ok("/home/alice/.jvc".to_owned()));
    assert_eq!(config.get_installation_dir(), Ok("/home/alice/.jvc/java-versions".to_owned()));
    assert_eq!(
        config.get_download_dir(),
        Ok("/home/alice/.jvc/java-versions/.downloads".to_owned())
    );
    assert_eq!(config.aliases_dir(), Ok("/home/alice/.jvc/aliases".to_owned()));
    assert_eq!(config.default_version_dir(), Ok("/home/alice/.jvc/aliases/default".to_owned()));
}

#[test]
fn root_follows_from_configuration_and_home() {
    assert_eq!(
        resolve_base_dir(&Some("/data/jvc".to_owned()), Some("/home/alice".to_owned())),
        Ok("/data/jvc".to_owned())
    );
    assert_eq!(resolve_base_dir(&Some("/data/jvc".to_owned()), None), Ok("/data/jvc".to_owned()));
    assert_eq!(
        resolve_base_dir(&None, Some("/home/alice".to_owned())),
        Ok("/home/alice/.jvc".to_owned())
    );
    assert_eq!(resolve_base_dir(&None, None), Err(JvcError::NoBaseDirectory));
}

#[test]
fn default_config_uses_adoptopenjdk() {
    let config = JvcConfig::default();
    assert_eq!(config.base_dir, None);
    assert_eq!(config.java_provider, Provider::AdoptOpenJDK);
    assert_eq!(config.log_level, LogLevel::Info);
}

#[test]
fn client_config_carries_what_it_was_given() {
    let requirements = VersionRequirements::for_platform("windows", "x86");
    let client =
        new_client_config(&rooted(Provider::Azul), Version::new(17, true, Provider::Azul), requirements)
            .unwrap();
    assert_eq!(client.download_dir, "/home/alice/.jvc/java-versions/.downloads");
    assert_eq!(client.version, Version::new(17, true, Provider::Azul));
    assert_eq!(client.requirements.os, Some("windows".to_owned()));
    assert_eq!(client.requirements.arch, Some("x86".to_owned()));
    assert_eq!(client.base_url, Provider::Azul.base_url());
}

#[test]
fn default_requirements_name_every_field() {
    let r = VersionRequirements::default();
    assert_eq!(r.arch, Some("x64".to_owned()));
    assert_eq!(r.image_type, Some("jdk".to_owned()));
    assert_eq!(r.jvm_impl, Some("hotspot".to_owned()));
    assert_eq!(r.heap_size, Some("normal".to_owned()));
    assert_eq!(r.release_type, Some("ga".to_owned()));
    assert_eq!(r.vendor, Some("adoptopenjdk".to_owned()));
    assert_eq!(r.project, Some("jdk".to_owned()));
    assert_eq!(r.os, Some("linux".to_owned()));
    let none = VersionRequirements::unspecified();
    assert_eq!(none.arch, None);
    assert_eq!(none.os, None);
    let copy = r.clone();
    assert_eq!(copy.vendor, r.vendor);
}

#[test]
fn log_levels_are_read_by_name() {
    assert_eq!(LogLevel::from_name("debug"), Some(LogLevel::Debug));
    assert_eq!(LogLevel::from_name("all"), Some(LogLevel::Debug));
    assert_eq!(LogLevel::from_name("info"), Some(LogLevel::Info));
    assert_eq!(LogLevel::from_name("error"), Some(LogLevel::Error));
    assert_eq!(LogLevel::from_name("silent"), Some(LogLevel::Silent));
    assert_eq!(LogLevel::from_name("quiet"), Some(LogLevel::Silent));
    assert_eq!(LogLevel::from_name("loud"), None);
    assert_eq!(LogLevel::Silent.name(), "silent");
    assert_eq!(LogLevel::Debug.name(), "debug");
    assert_eq!("error".parse::<LogLevel>(), Ok(LogLevel::Error));
    assert!("verbose".parse::<LogLevel>().is_err());
}

#[test]
fn every_failure_has_a_message() {
    assert_eq!(JvcError::ResolutionError.message(), "Cannot compose download url for selected version");
    assert_eq!(JvcError::InvalidAliasName.message(), "Alias name should not be a version number");
    assert_eq!(JvcError::VersionNotInstalled.message(), "Cannot find requested version!");
    assert_eq!(JvcError::UnsupportedArchiveKind.message(), "Unknown archive type");
}

#[test]
fn host_system_completes_adoptopenjdk_requirements() {
    let none = VersionRequirements::unspecified();
    assert_eq!(none.on_host(Provider::AdoptOpenJDK, "windows").os, Some("windows".to_owned()));
    let none = VersionRequirements::unspecified();
    assert_eq!(none.on_host(Provider::Azul, "windows").os, None);
    let named = VersionRequirements::for_platform("mac", "x64");
    let kept = named.on_host(Provider::AdoptOpenJDK, "windows");
    assert_eq!(kept.os, Some("mac".to_owned()));
    assert_eq!(kept.arch, Some("x64".to_owned()));
    assert_eq!(kept.vendor, Some("adoptopenjdk".to_owned()));
}
