use jvc::commands::alias::{is_alias, validate_alias_name};
use jvc::commands::windows::{string_from_winreg_value, string_to_winreg_bytes, RegistryType, RegistryValue};
use jvc::path::{extension_of, file_name_of, join_path};
use jvc::text::{
    contains_text, parse_u32, parse_u8, split_text, strip_leading, strip_trailing, words_of,
};
use jvc::version::Version;
use std::path::Path;

struct Generator(u64);

impl Generator {
    fn next(&mut self) -> u64 {
        self.0 = self.0.wrapping_mul(6364136223846793005).wrapping_add(1442695040888963407);
        self.0 >> 33
    }

    fn text(&mut self, alphabet: &[char], max_len: u64) -> String {
        let len = self.next() % (max_len + 1);
        (0..len).map(|_| alphabet[(self.next() % alphabet.len() as u64) as usize]).collect()
    }
}

#[test]
fn numbers_are_read_as_the_standard_parser_reads_them() {
    let alphabet = ['0', '1', '2', '5', '9', '+', '-', ' ', 'a'];
    let mut generator = Generator(1);
    for _ in 0..20000 {
        let s = generator.text(&alphabet, 5);
        assert_eq!(parse_u8(&s), s.parse::<u8>().ok(), "for {:?}", s);
        assert_eq!(parse_u32(&s), s.parse::<u32>().ok(), "for {:?}", s);
        assert_eq!(is_alias(&s), s.parse::<u8>().is_err(), "for {:?}", s);
        assert_eq!(validate_alias_name(&s).is_ok(), s.parse::<u8>().is_err(), "for {:?}", s);
    }
    let digits = ['0', '1', '2', '3', '4', '5', '6', '7', '8', '9'];
    for _ in 0..20000 {
        let s = generator.text(&digits, 12);
        assert_eq!(parse_u8(&s), s.parse::<u8>().ok(), "for {:?}", s);
        assert_eq!(parse_u32(&s), s.parse::<u32>().ok(), "for {:?}", s);
    }
}

#[test]
fn texts_are_cut_as_the_standard_functions_cut_them() {
    let alphabet = ['a', 'b', '-', ' ', '\t', '\u{a0}', '/', '\0', 'é'];
    let mut generator = Generator(2);
    for _ in 0..20000 {
        let s = generator.text(&alphabet, 8);
        let pieces: Vec<String> = s.split('-').map(|p| p.to_owned()).collect();
        assert_eq!(split_text(&s, '-'), pieces, "for {:?}", s);
        let words: Vec<String> = s.split_whitespace().map(|p| p.to_owned()).collect();
        assert_eq!(words_of(&s), words, "for {:?}", s);
        assert_eq!(strip_leading(&s, '-'), s.trim_start_matches('-'), "for {:?}", s);
        assert_eq!(strip_trailing(&s, '\0'), s.trim_end_matches('\0'), "for {:?}", s);
        let needle = generator.text(&alphabet, 3);
        assert_eq!(contains_text(&s, &needle), s.contains(&needle), "for {:?} in {:?}", needle, s);
    }
}

#[test]
fn paths_are_read_as_the_standard_paths_are() {
    let alphabet = ['a', 'b', '.', '/', '-', 'z'];
    let mut generator = Generator(3);
    for _ in 0..20000 {
        let s = generator.text(&alphabet, 8);
        let name = Path::new(&s).file_name().map(|n| n.to_str().unwrap().to_owned());
        assert_eq!(file_name_of(&s), name, "for {:?}", s);
        let extension = Path::new(&s).extension().map(|n| n.to_str().unwrap().to_owned());
        assert_eq!(extension_of(&s), extension, "for {:?}", s);
        let child = generator.text(&alphabet, 5);
        let joined = Path::new(&s).join(&child);
        assert_eq!(join_path(&s, &child), joined.to_str().unwrap(), "for {:?} and {:?}", s, child);
    }
}

#[test]
fn directory_names_decode_to_what_encodes_to_them() {
    let alphabet = ['8', '1', '-', 'l', 't', 's', 'a', 'z', 'u'];
    let mut generator = Generator(4);
    let mut decoded = 0;
    for _ in 0..40000 {
        let mut s = generator.text(&alphabet, 4);
        match generator.next() % 4 {
            0 => s.push_str("-azul"),
            1 => s.push_str("-lts-azul"),
            2 => s.push_str("-adoptopenjdk"),
            _ => {}
        }
        if let Ok(version) = Version::new_from_disk(&s) {
            decoded += 1;
            assert_eq!(version.as_disk_version(), s);
            assert_eq!(version.semver_value, None);
            assert_eq!(Version::new_from_disk(&version.as_disk_version()).unwrap(), version);
        }
    }
    assert!(decoded > 1000);
}

#[test]
fn registry_text_survives_encoding_and_decoding() {
    let alphabet = ['a', ';', '\\', 'é', '€', '😀', '\u{10FFFF}', '%'];
    let mut generator = Generator(5);
    for _ in 0..5000 {
        let s = generator.text(&alphabet, 10);
        let bytes = string_to_winreg_bytes(&s);
        let mut expected = vec![];
        for unit in s.encode_utf16().chain(Some(0)) {
            expected.extend_from_slice(&unit.to_le_bytes());
        }
        assert_eq!(bytes, expected, "for {:?}", s);
        let value = RegistryValue { bytes, vtype: RegistryType::ExpandableText };
        assert_eq!(string_from_winreg_value(&value), Some(s));
    }
}
