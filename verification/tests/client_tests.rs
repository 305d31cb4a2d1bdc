use jvc::client::adoptopenjdk_client::{
    compose_download_url, convert_adoptopenjdk_to_version, download_package_url,
    get_link_after_redirect, get_package_name, get_total_size, redirect_link, AdoptOpenJDKClient,
    AdoptOpenJDKVersion, BinariesInfo, BinaryInfo, PackageInfo,
};
use jvc::client::azul_client::{
    combine_versions_info, compose_all_version_url, compose_details_url, get_lts_releases,
    major_releases, sorted_members_of, AzulClient, AzulPackage, AzulPackageDetails,
};
use jvc::client::github_client::GithubClient;
use jvc::client::package_client::{
    get_client, DownloadState, DownloadStep, ListState, ListStep, PackageClient, ProviderClient,
    Reply, Request, Shape,
};
use jvc::config::{ClientConfig, VersionRequirements};
use jvc::error::JvcError;
use jvc::provider::Provider;
use jvc::version::Version;
use std::collections::HashSet;

const BASE_URL: &str = "https://api.azul.com/zulu/download/community/v1.0";

fn setup() -> VersionRequirements {
    VersionRequirements {
        arch: Some("x86".to_owned()),
        os: Some("windows".to_owned()),
        image_type: Some("jdk".to_owned()),
        release_type: Some("ga".to_owned()),
        jvm_impl: None,
        heap_size: None,
        vendor: None,
        project: None,
    }
}

fn bundle(id: u32, jdk_version: Vec<u32>) -> AzulPackage {
    AzulPackage {
        id,
        name: format!("zulu{}", id),
        url: format!("https://cdn.azul.com/zulu/bin/zulu{}.zip", id),
        jdk_version,
        zulu_version: vec![id, 0, 0],
    }
}

fn release(packages: Vec<(&str, &str, u32)>) -> BinariesInfo {
    BinariesInfo {
        binaries: packages
            .into_iter()
            .map(|(link, name, size)| BinaryInfo {
                package: PackageInfo { link: link.to_owned(), name: name.to_owned(), size },
            })
            .collect(),
    }
}

fn config_for(provider: Provider, version: u32) -> ClientConfig {
    ClientConfig {
        requirements: VersionRequirements::unspecified(),
        download_dir: "/home/alice/.jvc/java-versions/.downloads".to_owned(),
        base_url: provider.base_url(),
        version: Version::new(version, false, provider),
    }
}

#[test]
fn test_url_creation() {
    let url = compose_details_url(BASE_URL, "10", setup());
    let expected_url = format!("{}/bundles/latest/?jdk_version=10&os=windows&arch=x86&ext=zip&bundle_type=jdk&release_status=ga",
        BASE_URL);
    assert_eq!(url, expected_url)
}

#[test]
fn test_url_all_version_creation() {
    let url = compose_all_version_url(BASE_URL, setup());
    let expected_url = format!(
        "{}/bundles/?os=windows&arch=x86&ext=zip&bundle_type=jdk&release_status=ga",
        BASE_URL
    );
    assert_eq!(url, expected_url)
}

#[test]
fn get_client_should_return_correct_value() {
    let client = get_client(&Provider::Azul);
    let expected_client: Box<dyn PackageClient> = Box::new(AzulClient::new());
    assert_eq!(client.get_base_url(), expected_client.get_base_url());

    let adopt_client = get_client(&Provider::AdoptOpenJDK);
    let adopt_expected_client: Box<dyn PackageClient> = Box::new(AdoptOpenJDKClient::new());
    assert_eq!(
        adopt_client.get_base_url(),
        adopt_expected_client.get_base_url()
    );
}

#[test]
fn get_base_url_should_work_for_azul() {
    let client = get_client(&Provider::Azul);
    let base_url = client.get_base_url();
    assert_eq!(
        base_url,
        "https://api.azul.com/zulu/download/community/v1.0".to_owned()
    );
}

#[test]
fn get_base_url_should_work_for_adoptopenjdk() {
    let client = get_client(&Provider::AdoptOpenJDK);
    let base_url = client.get_base_url();
    assert_eq!(base_url, "https://api.adoptopenjdk.net/v3".to_owned());
}

#[test]
fn get_client_matches_the_provider() {
    assert!(matches!(get_client(&Provider::Azul), ProviderClient::Azul(_)));
    assert!(matches!(get_client(&Provider::AdoptOpenJDK), ProviderClient::AdoptOpenJDK(_)));
}

#[test]
fn azul_urls_use_the_defaults_of_the_service() {
    let url = compose_details_url(BASE_URL, "11", VersionRequirements::unspecified());
    assert_eq!(
        url,
        format!(
            "{}/bundles/latest/?jdk_version=11&os=&arch=x86&ext=zip&bundle_type=jdk&release_status=ga",
            BASE_URL
        )
    );
    let all = compose_all_version_url(BASE_URL, VersionRequirements::unspecified());
    assert_eq!(
        all,
        format!("{}/bundles/?os=&arch=x86&ext=zip&bundle_type=jdk&release_status=ga", BASE_URL)
    );
    assert_eq!(get_lts_releases(&all), format!("{}&support_term=lts", all));
}

#[test]
fn adoptopenjdk_url_names_every_requirement() {
    let version = Version::new(11, true, Provider::AdoptOpenJDK);
    let url = compose_download_url(
        VersionRequirements::unspecified(),
        "https://api.adoptopenjdk.net/v3".to_owned(),
        &version,
    );
    assert_eq!(
        url,
        "https://api.adoptopenjdk.net/v3/assets/feature_releases/11/ga?architecture=x64&heap_size=normal&image_type=jdk&jvm_impl=hotspot&os=linux&page=0&page_size=1&project=jdk&sort_method=DEFAULT&sort_order=DESC&vendor=adoptopenjdk"
    );
    let chosen = VersionRequirements {
        arch: Some("aarch64".to_owned()),
        image_type: Some("jre".to_owned()),
        jvm_impl: Some("openj9".to_owned()),
        heap_size: Some("large".to_owned()),
        release_type: Some("ea".to_owned()),
        vendor: Some("openjdk".to_owned()),
        project: Some("valhalla".to_owned()),
        os: Some("mac".to_owned()),
    };
    let url = download_package_url("http://localhost".to_owned(), chosen, &version);
    assert_eq!(
        url,
        "http://localhost/assets/feature_releases/11/ea?architecture=aarch64&heap_size=large&image_type=jre&jvm_impl=openj9&os=mac&page=0&page_size=1&project=valhalla&sort_method=DEFAULT&sort_order=DESC&vendor=openjdk"
    );
}

#[test]
fn adoptopenjdk_listing_flags_lts_members() {
    let releases = AdoptOpenJDKVersion {
        available_lts_releases: vec![8, 11],
        available_releases: vec![8, 9, 10, 11, 12, 16],
        most_recent_feature_release: 16,
        most_recent_feature_version: 17,
        most_recent_lts: 11,
        tip_version: 17,
    };
    let versions = convert_adoptopenjdk_to_version(releases).unwrap();
    let expected: Vec<Version> = vec![
        Version::new(8, true, Provider::AdoptOpenJDK),
        Version::new(9, false, Provider::AdoptOpenJDK),
        Version::new(10, false, Provider::AdoptOpenJDK),
        Version::new(11, true, Provider::AdoptOpenJDK),
        Version::new(12, false, Provider::AdoptOpenJDK),
        Version::new(16, false, Provider::AdoptOpenJDK),
    ];
    assert_eq!(versions, expected);
}

#[test]
fn adoptopenjdk_listing_takes_one_request() {
    let client = AdoptOpenJDKClient::new();
    let step = client.get_all_version(VersionRequirements::unspecified());
    let state = match step {
        ListStep::Ask { request: Request::Get { url, shape }, state } => {
            assert_eq!(url, "https://api.adoptopenjdk.net/v3/info/available_releases");
            assert_eq!(shape, Shape::Releases);
            state
        }
        _ => panic!("a request was expected"),
    };
    assert!(matches!(state, ListState::AwaitReleases));
    let reply = Reply::Releases(AdoptOpenJDKVersion {
        available_lts_releases: vec![11],
        available_releases: vec![11, 12],
        most_recent_feature_release: 12,
        most_recent_feature_version: 12,
        most_recent_lts: 11,
        tip_version: 13,
    });
    match client.get_all_version_next(state, reply) {
        ListStep::Done(listing) => {
            assert!(!listing.degraded);
            assert_eq!(
                listing.versions,
                vec![
                    Version::new(11, true, Provider::AdoptOpenJDK),
                    Version::new(12, false, Provider::AdoptOpenJDK)
                ]
            );
        }
        _ => panic!("the listing was expected"),
    }
}

#[test]
fn adoptopenjdk_listing_passes_failures_on() {
    let client = AdoptOpenJDKClient::new();
    match client.get_all_version_next(ListState::AwaitReleases, Reply::Failed(JvcError::NetworkError)) {
        ListStep::Failed(e) => assert_eq!(e, JvcError::NetworkError),
        _ => panic!("a failure was expected"),
    }
    match client.get_all_version_next(ListState::AwaitReleases, Reply::Failed(JvcError::SchemaError)) {
        ListStep::Failed(e) => assert_eq!(e, JvcError::SchemaError),
        _ => panic!("a failure was expected"),
    }
    match client.get_all_version_next(ListState::AwaitReleases, Reply::Stored) {
        ListStep::Failed(e) => assert_eq!(e, JvcError::SchemaError),
        _ => panic!("a failure was expected"),
    }
}

#[test]
fn sorted_members_are_ascending() {
    let set: HashSet<u32> = [17, 8, 11, 7, 16, 9, 100, 0].into_iter().collect();
    assert_eq!(sorted_members_of(&set), vec![0, 7, 8, 9, 11, 16, 17, 100]);
    assert_eq!(sorted_members_of(&HashSet::new()), Vec::<u32>::new());
}

#[test]
fn combine_versions_info_orders_and_flags() {
    let majors: HashSet<u32> = [17, 8, 11].into_iter().collect();
    let lts: HashSet<u32> = [8, 11, 21].into_iter().collect();
    assert_eq!(
        combine_versions_info(majors.clone(), Some(lts)),
        vec![
            Version::new(8, true, Provider::Azul),
            Version::new(11, true, Provider::Azul),
            Version::new(17, false, Provider::Azul)
        ]
    );
    assert_eq!(
        combine_versions_info(majors, None),
        vec![
            Version::new(8, false, Provider::Azul),
            Version::new(11, false, Provider::Azul),
            Version::new(17, false, Provider::Azul)
        ]
    );
}

#[test]
fn major_releases_are_the_leading_numbers() {
    let bundles = vec![bundle(1, vec![11, 0, 2]), bundle(2, vec![8, 0, 292]), bundle(3, vec![11, 0, 11])];
    let expected: HashSet<u32> = [8, 11].into_iter().collect();
    assert_eq!(major_releases(&bundles), Some(expected));
    assert_eq!(major_releases(&vec![]), Some(HashSet::new()));
    assert_eq!(major_releases(&vec![bundle(1, vec![11]), bundle(2, vec![])]), None);
}

fn azul_listing_up_to_lts(all: Vec<AzulPackage>) -> ListState {
    let client = AzulClient::new();
    let step = client.get_all_version(setup());
    let state = match step {
        ListStep::Ask { request: Request::Get { url, shape }, state } => {
            assert_eq!(
                url,
                format!(
                    "{}/bundles/?os=windows&arch=x86&ext=zip&bundle_type=jdk&release_status=ga",
                    BASE_URL
                )
            );
            assert_eq!(shape, Shape::Bundles);
            state
        }
        _ => panic!("a request was expected"),
    };
    match client.get_all_version_next(state, Reply::Bundles(all)) {
        ListStep::Ask { request: Request::Get { url, shape }, state } => {
            assert_eq!(
                url,
                format!(
                    "{}/bundles/?os=windows&arch=x86&ext=zip&bundle_type=jdk&release_status=ga&support_term=lts",
                    BASE_URL
                )
            );
            assert_eq!(shape, Shape::Bundles);
            state
        }
        _ => panic!("a second request was expected"),
    }
}

#[test]
fn azul_listing_takes_two_requests() {
    let all = vec![
        bundle(1, vec![17, 0, 1]),
        bundle(2, vec![8, 0, 292]),
        bundle(3, vec![11, 0, 11]),
        bundle(4, vec![8, 0, 282]),
    ];
    let state = azul_listing_up_to_lts(all);
    let lts = vec![bundle(2, vec![8, 0, 292]), bundle(3, vec![11, 0, 11])];
    match AzulClient::new().get_all_version_next(state, Reply::Bundles(lts)) {
        ListStep::Done(listing) => {
            assert!(!listing.degraded);
            assert_eq!(
                listing.versions,
                vec![
                    Version::new(8, true, Provider::Azul),
                    Version::new(11, true, Provider::Azul),
                    Version::new(17, false, Provider::Azul)
                ]
            );
        }
        _ => panic!("the listing was expected"),
    }
}

#[test]
fn azul_listing_survives_a_failed_lts_request() {
    for failure in [JvcError::NetworkError, JvcError::SchemaError, JvcError::IOError] {
        let all = vec![bundle(1, vec![17, 0, 1]), bundle(2, vec![8, 0, 292]), bundle(3, vec![11, 0, 11])];
        let state = azul_listing_up_to_lts(all);
        match AzulClient::new().get_all_version_next(state, Reply::Failed(failure)) {
            ListStep::Done(listing) => {
                assert!(listing.degraded);
                assert_eq!(
                    listing.versions,
                    vec![
                        Version::new(8, false, Provider::Azul),
                        Version::new(11, false, Provider::Azul),
                        Version::new(17, false, Provider::Azul)
                    ]
                );
                assert!(listing.versions.iter().all(|v| !v.is_lts()));
            }
            _ => panic!("the listing was expected"),
        }
    }
}

#[test]
fn azul_listing_survives_a_malformed_lts_answer() {
    let all = vec![bundle(1, vec![17, 0, 1]), bundle(2, vec![8, 0, 292])];
    let state = azul_listing_up_to_lts(all);
    let lts = vec![bundle(2, vec![])];
    match AzulClient::new().get_all_version_next(state, Reply::Bundles(lts)) {
        ListStep::Done(listing) => {
            assert!(listing.degraded);
            assert_eq!(
                listing.versions,
                vec![Version::new(8, false, Provider::Azul), Version::new(17, false, Provider::Azul)]
            );
        }
        _ => panic!("the listing was expected"),
    }
}

#[test]
fn azul_listing_fails_without_the_first_answer() {
    let client = AzulClient::new();
    let state = ListState::AwaitBundles { lts_url: "http://localhost/lts".to_owned() };
    match client.get_all_version_next(state, Reply::Failed(JvcError::NetworkError)) {
        ListStep::Failed(e) => assert_eq!(e, JvcError::NetworkError),
        _ => panic!("a failure was expected"),
    }
    let state = ListState::AwaitBundles { lts_url: "http://localhost/lts".to_owned() };
    match client.get_all_version_next(state, Reply::Bundles(vec![bundle(1, vec![])])) {
        ListStep::Failed(e) => assert_eq!(e, JvcError::SchemaError),
        _ => panic!("a failure was expected"),
    }
}

#[test]
fn first_package_is_read() {
    let info = release(vec![("https://a/1", "one.tar.gz", 100), ("https://a/2", "two.zip", 200)]);
    assert_eq!(get_total_size(&info), Some(100));
    assert_eq!(get_package_name(&info), Some("one.tar.gz"));
    assert_eq!(get_total_size(&release(vec![])), None);
    assert_eq!(get_package_name(&release(vec![])), None);
}

#[test]
fn redirect_needs_status_302_and_an_address() {
    assert_eq!(
        get_link_after_redirect(302, &Some("https://github.com/a/b.tar.gz".to_owned())),
        Ok("https://github.com/a/b.tar.gz".to_owned())
    );
    assert_eq!(get_link_after_redirect(302, &None), Err(JvcError::ResolutionError));
    assert_eq!(
        get_link_after_redirect(200, &Some("https://github.com/a/b.tar.gz".to_owned())),
        Err(JvcError::ResolutionError)
    );
    assert_eq!(
        get_link_after_redirect(301, &Some("https://github.com/a/b.tar.gz".to_owned())),
        Err(JvcError::ResolutionError)
    );
    assert_eq!(
        get_link_after_redirect(302, &Some("not an address".to_owned())),
        Err(JvcError::ResolutionError)
    );
    assert_eq!(
        get_link_after_redirect(302, &Some("/relative/path".to_owned())),
        Err(JvcError::ResolutionError)
    );
    assert_eq!(get_link_after_redirect(302, &Some("".to_owned())), Err(JvcError::ResolutionError));
}

#[test]
fn redirect_address_is_put_in_normal_form() {
    assert_eq!(
        get_link_after_redirect(302, &Some("HTTPS://Example.COM".to_owned())),
        Ok("https://example.com/".to_owned())
    );
    assert_eq!(
        get_link_after_redirect(302, &Some("https://example.com/a b".to_owned())),
        Ok("https://example.com/a%20b".to_owned())
    );
}

#[test]
fn redirect_link_decides_on_status_and_target() {
    assert_eq!(redirect_link(302, Some(Some("x".to_owned()))), Ok("x".to_owned()));
    assert_eq!(redirect_link(302, Some(None)), Err(JvcError::ResolutionError));
    assert_eq!(redirect_link(302, None), Err(JvcError::ResolutionError));
    assert_eq!(redirect_link(303, Some(Some("x".to_owned()))), Err(JvcError::ResolutionError));
}

#[test]
fn adoptopenjdk_download_follows_one_redirect() {
    let client = AdoptOpenJDKClient::new();
    let config = config_for(Provider::AdoptOpenJDK, 11);
    let state = match client.download(&config) {
        DownloadStep::Ask { request: Request::Get { url, shape }, state } => {
            assert_eq!(
                url,
                "https://api.adoptopenjdk.net/v3/assets/feature_releases/11/ga?architecture=x64&heap_size=normal&image_type=jdk&jvm_impl=hotspot&os=linux&page=0&page_size=1&project=jdk&sort_method=DEFAULT&sort_order=DESC&vendor=adoptopenjdk"
            );
            assert_eq!(shape, Shape::Binaries);
            state
        }
        _ => panic!("a request was expected"),
    };
    let binaries = vec![
        release(vec![
            ("https://api.adoptopenjdk.net/first", "first.tar.gz", 1000),
            ("https://api.adoptopenjdk.net/second", "second.tar.gz", 2000),
        ]),
        release(vec![("https://api.adoptopenjdk.net/third", "third.tar.gz", 3000)]),
    ];
    let state = match client.download_next(&config, state, Reply::Binaries(binaries)) {
        DownloadStep::Ask { request: Request::Probe { url }, state } => {
            assert_eq!(url, "https://api.adoptopenjdk.net/first");
            state
        }
        _ => panic!("a probe was expected"),
    };
    let redirect =
        Reply::Redirect { status: 302, location: Some("https://github.com/releases/first.tar.gz".to_owned()) };
    let state = match client.download_next(&config, state, redirect) {
        DownloadStep::Ask { request: Request::Store { url, path, total_size }, state } => {
            assert_eq!(url, "https://github.com/releases/first.tar.gz");
            assert_eq!(path, "/home/alice/.jvc/java-versions/.downloads/11");
            assert_eq!(total_size, 1000);
            state
        }
        _ => panic!("a transfer was expected"),
    };
    match client.download_next(&config, state, Reply::Stored) {
        DownloadStep::Done(response) => {
            assert_eq!(response.download_path, "/home/alice/.jvc/java-versions/.downloads/11");
            assert_eq!(response.package_name, "first.tar.gz");
        }
        _ => panic!("the end was expected"),
    }
}

#[test]
fn adoptopenjdk_download_without_candidate_is_a_resolution_error() {
    let client = AdoptOpenJDKClient::new();
    let config = config_for(Provider::AdoptOpenJDK, 11);
    match client.download_next(&config, DownloadState::AwaitBinaries, Reply::Binaries(vec![])) {
        DownloadStep::Failed(e) => assert_eq!(e, JvcError::ResolutionError),
        _ => panic!("a failure was expected"),
    }
    let empty = vec![release(vec![]), release(vec![("https://a/1", "one.zip", 1)])];
    match client.download_next(&config, DownloadState::AwaitBinaries, Reply::Binaries(empty)) {
        DownloadStep::Failed(e) => assert_eq!(e, JvcError::ResolutionError),
        _ => panic!("a failure was expected"),
    }
}

#[test]
fn adoptopenjdk_redirect_without_location_is_a_resolution_error() {
    let client = AdoptOpenJDKClient::new();
    let config = config_for(Provider::AdoptOpenJDK, 11);
    for _ in 0..3 {
        let state = DownloadState::AwaitRedirect { package_name: "first.tar.gz".to_owned(), total_size: 1000 };
        match client.download_next(&config, state, Reply::Redirect { status: 302, location: None }) {
            DownloadStep::Failed(e) => assert_eq!(e, JvcError::ResolutionError),
            _ => panic!("a failure was expected"),
        }
    }
    let state = DownloadState::AwaitRedirect { package_name: "first.tar.gz".to_owned(), total_size: 1000 };
    let ok = Reply::Redirect { status: 200, location: Some("https://github.com/x".to_owned()) };
    match client.download_next(&config, state, ok) {
        DownloadStep::Failed(e) => assert_eq!(e, JvcError::ResolutionError),
        _ => panic!("a failure was expected"),
    }
}

#[test]
fn download_passes_failures_on() {
    let config = config_for(Provider::Azul, 11);
    let clients = [get_client(&Provider::Azul), get_client(&Provider::AdoptOpenJDK)];
    for client in clients {
        for failure in [JvcError::NetworkError, JvcError::SchemaError, JvcError::IOError] {
            let state = DownloadState::AwaitBody { package_name: "x.zip".to_owned() };
            match client.download_next(&config, state, Reply::Failed(failure)) {
                DownloadStep::Failed(e) => assert_eq!(e, failure),
                _ => panic!("a failure was expected"),
            }
        }
        match client.download_next(&config, DownloadState::AwaitDetails, Reply::Stored) {
            DownloadStep::Failed(e) => assert_eq!(e, JvcError::SchemaError),
            _ => panic!("a failure was expected"),
        }
    }
}

#[test]
fn azul_download_stores_the_named_artifact() {
    let client = get_client(&Provider::Azul);
    let mut config = config_for(Provider::Azul, 17);
    config.requirements = setup();
    let state = match client.download(&config) {
        DownloadStep::Ask { request: Request::Get { url, shape }, state } => {
            assert_eq!(
                url,
                format!(
                    "{}/bundles/latest/?jdk_version=17&os=windows&arch=x86&ext=zip&bundle_type=jdk&release_status=ga",
                    BASE_URL
                )
            );
            assert_eq!(shape, Shape::Details);
            state
        }
        _ => panic!("a request was expected"),
    };
    let details = AzulPackageDetails {
        url: "https://cdn.azul.com/zulu/bin/zulu17.zip".to_owned(),
        name: "zulu17.zip".to_owned(),
        size: 4242,
    };
    let state = match client.download_next(&config, state, Reply::Details(details)) {
        DownloadStep::Ask { request: Request::Store { url, path, total_size }, state } => {
            assert_eq!(url, "https://cdn.azul.com/zulu/bin/zulu17.zip");
            assert_eq!(path, "/home/alice/.jvc/java-versions/.downloads/17");
            assert_eq!(total_size, 4242);
            state
        }
        _ => panic!("a transfer was expected"),
    };
    match client.download_next(&config, state, Reply::Stored) {
        DownloadStep::Done(response) => {
            assert_eq!(response.download_path, "/home/alice/.jvc/java-versions/.downloads/17");
            assert_eq!(response.package_name, "zulu17.zip");
        }
        _ => panic!("the end was expected"),
    }
}

#[test]
fn github_client_has_no_service() {
    let client = GithubClient::new();
    assert_eq!(client.get_base_url(), "");
    assert!(matches!(
        client.get_all_version(VersionRequirements::unspecified()),
        ListStep::Failed(JvcError::ResolutionError)
    ));
    assert!(matches!(
        client.download(&config_for(Provider::Azul, 8)),
        DownloadStep::Failed(JvcError::ResolutionError)
    ));
}
