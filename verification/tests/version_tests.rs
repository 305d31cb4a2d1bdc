use jvc::error::JvcError;
use jvc::provider::Provider;
use jvc::version::Version;

#[test]
fn version_should_display_main_version() {
    let version = Version::new(10, false, Provider::Azul);
    let string_result = version.to_string();
    assert_eq!(format!("{}", 10), string_result);
}

#[test]
fn should_extract_major_version_as_number() {
    let version = Version::new_from_disk("8-lts-azul").unwrap().to_version_number();
    assert!(version.is_ok());
    assert_eq!(8, version.unwrap());
}

#[test]
fn should_create_version_from_disk() {
    let version = Version::new_from_disk("8-lts-azul").unwrap();
    assert_eq!(version.is_lts(), true);
    assert_eq!(version.provider, Provider::Azul);
}

#[test]
fn should_create_version_without_lts_from_disk() {
    let version = Version::new_from_disk("8-azul").unwrap();
    assert_eq!(version.is_lts(), false);
    assert_eq!(version.provider, Provider::Azul);
}

#[test]
fn disk_name_has_value_and_provider() {
    assert_eq!(Version::new(8, false, Provider::Azul).as_disk_version(), "8-azul");
    assert_eq!(Version::new(17, false, Provider::AdoptOpenJDK).as_disk_version(), "17-adoptopenjdk");
}

#[test]
fn disk_name_of_lts_version_has_marker() {
    assert_eq!(Version::new(11, true, Provider::Azul).as_disk_version(), "11-lts-azul");
    assert_eq!(
        Version::new(11, true, Provider::AdoptOpenJDK).as_disk_version(),
        "11-lts-adoptopenjdk"
    );
}

#[test]
fn decoding_an_encoded_version_gives_it_back() {
    for value in 0u32..300 {
        for lts in [false, true] {
            for provider in [Provider::AdoptOpenJDK, Provider::Azul] {
                let version = Version::new(value, lts, provider);
                let decoded = Version::new_from_disk(&version.as_disk_version()).unwrap();
                assert_eq!(decoded, version);
                assert_eq!(decoded.value, value.to_string());
                assert_eq!(decoded.lts, lts);
                assert_eq!(decoded.provider, provider);
                assert_eq!(decoded.semver_value, None);
            }
        }
    }
    let big = Version::new(u32::MAX, true, Provider::Azul);
    assert_eq!(big.as_disk_version(), "4294967295-lts-azul");
    assert_eq!(Version::new_from_disk("4294967295-lts-azul").unwrap(), big);
}

#[test]
fn decoding_fails_on_one_piece() {
    assert_eq!(Version::new_from_disk("8").unwrap_err(), JvcError::MalformedVersionName);
    assert_eq!(Version::new_from_disk("").unwrap_err(), JvcError::MalformedVersionName);
    assert_eq!(Version::new_from_disk("azul").unwrap_err(), JvcError::MalformedVersionName);
}

#[test]
fn decoding_fails_on_unknown_provider() {
    assert_eq!(Version::new_from_disk("8-oracle").unwrap_err(), JvcError::UnknownProviderCode);
    assert_eq!(Version::new_from_disk("8-lts-oracle").unwrap_err(), JvcError::UnknownProviderCode);
    assert_eq!(Version::new_from_disk("8-").unwrap_err(), JvcError::UnknownProviderCode);
    assert_eq!(Version::new_from_disk("8-Azul").unwrap_err(), JvcError::UnknownProviderCode);
}

#[test]
fn decoding_fails_on_other_shapes() {
    assert_eq!(Version::new_from_disk("8-sts-azul").unwrap_err(), JvcError::MalformedVersionName);
    assert_eq!(Version::new_from_disk("8-lts-azul-azul").unwrap_err(), JvcError::MalformedVersionName);
    assert_eq!(Version::new_from_disk("8--azul").unwrap_err(), JvcError::MalformedVersionName);
    assert_eq!(Version::new_from_disk("-8-azul").unwrap_err(), JvcError::MalformedVersionName);
}

#[test]
fn decoding_keeps_the_value_as_it_stands() {
    let version = Version::new_from_disk("abc-azul").unwrap();
    assert_eq!(version.value, "abc");
    assert_eq!(version.to_version_number().unwrap_err(), JvcError::InvalidVersionNumber);
    let empty = Version::new_from_disk("-azul").unwrap();
    assert_eq!(empty.value, "");
}

#[test]
fn version_number_is_limited_to_a_byte() {
    assert_eq!(Version::new(255, false, Provider::Azul).to_version_number(), Ok(255));
    assert_eq!(
        Version::new(256, false, Provider::Azul).to_version_number(),
        Err(JvcError::InvalidVersionNumber)
    );
    assert_eq!(Version::new(0, false, Provider::Azul).to_version_number(), Ok(0));
}

#[test]
fn listings_order_versions_by_number() {
    let eight = Version::new(8, false, Provider::Azul);
    let eleven = Version::new(11, true, Provider::Azul);
    assert!(eight.numeric_le(&eleven));
    assert!(!eleven.numeric_le(&eight));
    assert!(eight.numeric_le(&eight));
    assert_eq!(eleven.numeric_value(), 11);
    let odd = Version::new_from_disk("abc-azul").unwrap();
    assert_eq!(odd.numeric_value(), 0);
    assert!(odd.numeric_le(&eight));
}

#[test]
fn versions_are_equal_when_all_parts_are() {
    let a = Version::new(8, false, Provider::Azul);
    assert_eq!(a, a.clone());
    assert_ne!(a, Version::new(8, true, Provider::Azul));
    assert_ne!(a, Version::new(8, false, Provider::AdoptOpenJDK));
    assert_ne!(a, Version::new(9, false, Provider::Azul));
    let mut with_semver = a.clone();
    with_semver.semver_value = Some("8.0.292".to_owned());
    assert_ne!(a, with_semver);
    assert_eq!(with_semver.as_disk_version(), "8-azul");
}

#[test]
fn provider_codes_are_read_back() {
    assert_eq!(Provider::AdoptOpenJDK.as_str(), "adoptopenjdk");
    assert_eq!(Provider::Azul.as_str(), "azul");
    assert_eq!(Provider::from_code("adoptopenjdk"), Ok(Provider::AdoptOpenJDK));
    assert_eq!(Provider::from_code("azul"), Ok(Provider::Azul));
    assert_eq!(Provider::from_code("oracle"), Err(JvcError::UnknownProviderCode));
    assert_eq!(Provider::from_code(""), Err(JvcError::UnknownProviderCode));
    assert_eq!("azul".parse::<Provider>(), Ok(Provider::Azul));
    assert!("zulu".parse::<Provider>().is_err());
    assert_eq!(Provider::Azul.to_string(), "azul");
}

#[test]
fn encoding_a_decoded_name_gives_it_back() {
    for name in ["8-azul", "11-lts-azul", "17-adoptopenjdk", "abc-azul", "-azul", "-lts-adoptopenjdk", "011-azul"] {
        let version = Version::new_from_disk(name).unwrap();
        assert_eq!(version.as_disk_version(), name);
        assert!(!version.value.contains('-'));
    }
}
