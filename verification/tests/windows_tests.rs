use jvc::commands::windows::{
    bytes_of_units, extend_path, get_windows_path_var, installer_url, set_persistent_path,
    string_from_winreg_value, string_to_winreg_bytes, text_of_value, units_of_bytes, utf16_of,
    RegistryRead, RegistryType, RegistryValue, Setup,
};
use jvc::error::JvcError;
use jvc::text::{contains_text, strip_trailing};

fn expected_bytes(s: &str) -> Vec<u8> {
    let mut bytes = vec![];
    for unit in s.encode_utf16().chain(Some(0)) {
        bytes.extend_from_slice(&unit.to_le_bytes());
    }
    bytes
}

fn text_value(s: &str) -> RegistryValue {
    RegistryValue { bytes: expected_bytes(s), vtype: RegistryType::Text }
}

#[test]
fn text_is_encoded_as_utf16_with_a_closing_zero() {
    assert_eq!(string_to_winreg_bytes(""), vec![0, 0]);
    assert_eq!(string_to_winreg_bytes("A"), vec![0x41, 0, 0, 0]);
    assert_eq!(string_to_winreg_bytes("é"), vec![0xE9, 0, 0, 0]);
    assert_eq!(string_to_winreg_bytes("€"), vec![0xAC, 0x20, 0, 0]);
    assert_eq!(string_to_winreg_bytes("😀"), vec![0x3D, 0xD8, 0x00, 0xDE, 0, 0]);
    for s in ["", "C:\\Users\\alice", "%JVC_SHELL_PATH%\\installation\\bin;C:\\Windows", "é€😀\u{10FFFF}\u{FFFF}\u{10000}\u{D7FF}\u{E000}"] {
        assert_eq!(string_to_winreg_bytes(s), expected_bytes(s), "for {:?}", s);
        let units: Vec<u16> = s.encode_utf16().collect();
        assert_eq!(utf16_of(s), units);
    }
}

#[test]
fn bytes_and_units_are_converted_low_byte_first() {
    assert_eq!(bytes_of_units(&vec![0x1234, 0x00FF, 0xFF00]), vec![0x34, 0x12, 0xFF, 0x00, 0x00, 0xFF]);
    assert_eq!(units_of_bytes(&vec![0x34, 0x12, 0xFF, 0x00, 0x00, 0xFF]), vec![0x1234, 0x00FF, 0xFF00]);
    assert_eq!(units_of_bytes(&vec![0x34, 0x12, 0xFF]), vec![0x1234]);
    assert_eq!(units_of_bytes(&vec![0x34]), Vec::<u16>::new());
    assert_eq!(units_of_bytes(&vec![]), Vec::<u16>::new());
    assert_eq!(units_of_bytes(&vec![0xFF, 0xFF]), vec![0xFFFF]);
}

#[test]
fn registry_text_is_decoded() {
    for s in ["", "C:\\Users\\alice", "é€😀"] {
        assert_eq!(string_from_winreg_value(&text_value(s)), Some(s.to_owned()));
        let expandable = RegistryValue { bytes: expected_bytes(s), vtype: RegistryType::ExpandableText };
        assert_eq!(string_from_winreg_value(&expandable), Some(s.to_owned()));
        let other = RegistryValue { bytes: expected_bytes(s), vtype: RegistryType::Other };
        assert_eq!(string_from_winreg_value(&other), None);
    }
    let several = RegistryValue { bytes: vec![0x41, 0, 0, 0, 0, 0, 0, 0], vtype: RegistryType::Text };
    assert_eq!(string_from_winreg_value(&several), Some("A".to_owned()));
    let inner = RegistryValue { bytes: vec![0x41, 0, 0, 0, 0x42, 0], vtype: RegistryType::Text };
    assert_eq!(string_from_winreg_value(&inner), Some("A\0B".to_owned()));
    let odd = RegistryValue { bytes: vec![0x41, 0, 0x42], vtype: RegistryType::Text };
    assert_eq!(string_from_winreg_value(&odd), Some("A".to_owned()));
    let lone_surrogate = RegistryValue { bytes: vec![0x00, 0xD8, 0x41, 0x00], vtype: RegistryType::Text };
    assert_eq!(string_from_winreg_value(&lone_surrogate), None);
}

#[test]
fn value_text_depends_on_kind_and_decoding() {
    assert_eq!(text_of_value(RegistryType::Text, Some("a\0\0".to_owned())), Some("a".to_owned()));
    assert_eq!(text_of_value(RegistryType::ExpandableText, Some("\0".to_owned())), Some("".to_owned()));
    assert_eq!(text_of_value(RegistryType::Other, Some("a".to_owned())), None);
    assert_eq!(text_of_value(RegistryType::Text, None), None);
    assert_eq!(strip_trailing("a\0b\0\0", '\0'), "a\0b");
    assert_eq!(strip_trailing("", '\0'), "");
}

#[test]
fn search_path_is_read_from_the_registry() {
    assert_eq!(
        get_windows_path_var(&RegistryRead::Found(text_value("C:\\Windows"))),
        Ok(Some("C:\\Windows".to_owned()))
    );
    let other = RegistryValue { bytes: vec![1, 0, 0, 0], vtype: RegistryType::Other };
    assert_eq!(get_windows_path_var(&RegistryRead::Found(other)), Ok(None));
    assert_eq!(get_windows_path_var(&RegistryRead::Missing), Ok(Some(String::new())));
    assert_eq!(get_windows_path_var(&RegistryRead::Failed), Err(JvcError::IOError));
}

#[test]
fn search_path_is_extended_once() {
    let current = Some("C:\\Windows;C:\\Tools".to_owned());
    let write = Setup {}.set_persistent_path("%JVC_SHELL_PATH%", "\\", &current).unwrap();
    assert_eq!(write.vtype, RegistryType::ExpandableText);
    assert_eq!(
        write.bytes,
        expected_bytes("%JVC_SHELL_PATH%\\installation\\bin;C:\\Windows;C:\\Tools")
    );
    let again = Some("%JVC_SHELL_PATH%\\installation\\bin;C:\\Windows;C:\\Tools".to_owned());
    assert!(Setup {}.set_persistent_path("%JVC_SHELL_PATH%", "\\", &again).is_none());
    assert!(Setup {}.set_persistent_path("%JVC_SHELL_PATH%", "\\", &None).is_none());
    let empty = set_persistent_path("C:\\jvc\\jvc.exe", &Some(String::new())).unwrap();
    assert_eq!(empty.bytes, expected_bytes("C:\\jvc\\jvc.exe;"));
    assert!(set_persistent_path("C:\\jvc", &Some("D:\\x;C:\\jvc\\bin".to_owned())).is_none());
    let slash = extend_path("/opt/jvc", "/installation/bin", &Some("/usr/bin".to_owned())).unwrap();
    assert_eq!(slash.bytes, expected_bytes("/opt/jvc/installation/bin;/usr/bin"));
}

#[test]
fn text_search_agrees_with_the_standard_search() {
    let haystacks = ["", "a", "ab", "abc", "aab", "abab", "C:\\Windows;C:\\Tools", "ééa"];
    let needles = ["", "a", "b", "ab", "ba", "abc", "abcd", "C:\\Tools", "é", "éa", "aa"];
    for h in haystacks {
        for n in needles {
            assert_eq!(contains_text(h, n), h.contains(n), "for {:?} in {:?}", n, h);
        }
    }
}

#[test]
fn setup_commands_and_addresses_are_composed() {
    assert_eq!(Setup {}.set_persistent_env_var("JVC_DIR", "C:\\jvc"), "SETX JVC_DIR C:\\jvc");
    assert_eq!(
        installer_url(&Some("v1.0".to_owned()), "jvc-win-amd64.exe"),
        "https://github.com/neculai-stanciu/jvc/releases/v1.0/download/jvc-win-amd64.exe"
    );
    assert_eq!(
        installer_url(&None, "jvc-win-amd64.exe"),
        "https://github.com/neculai-stanciu/jvc/releases/latest/download/jvc-win-amd64.exe"
    );
}
