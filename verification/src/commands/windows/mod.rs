//! The one-time setup of the user's environment on Windows: which
//! variables are set, and how the search path in the registry is extended.
//! The registry and the command prompt are the caller's to talk to.

use vstd::prelude::*;
use crate::error::JvcError;
use crate::path::opt_text;
use crate::text::{
    chars_of, contains_text, occurs_in, strip_trailing, without_trailing,
};

verus! {

/// The setup command.
#[derive(Debug)]
pub struct Setup {}

/// The kinds of registry value that the setup tells apart.
#[derive(Debug, Clone, Copy, PartialEq, Eq, Structural)]
pub enum RegistryType {
    /// A text (`REG_SZ`).
    Text,
    /// A text with references to variables (`REG_EXPAND_SZ`).
    ExpandableText,
    /// Any other kind.
    Other,
}

/// A value of the registry: its bytes and its kind.
#[derive(Debug)]
pub struct RegistryValue {
    pub bytes: Vec<u8>,
    pub vtype: RegistryType,
}

/// What a `RegistryValue` holds, as plain values.
pub struct RegistryValueView {
    pub bytes: Seq<u8>,
    pub vtype: RegistryType,
}

impl View for RegistryValue {
    type V = RegistryValueView;

    open spec fn view(&self) -> RegistryValueView {
        RegistryValueView { bytes: self.bytes@, vtype: self.vtype }
    }
}

/// What came of reading a value from the registry.
#[derive(Debug)]
pub enum RegistryRead {
    /// The value.
    Found(RegistryValue),
    /// There is no such value.
    Missing,
    /// The registry could not be read.
    Failed,
}

/// What a `RegistryRead` holds, as plain values.
pub enum RegistryReadView {
    Found(RegistryValueView),
    Missing,
    Failed,
}

impl View for RegistryRead {
    type V = RegistryReadView;

    open spec fn view(&self) -> RegistryReadView {
        match self {
            RegistryRead::Found(v) => RegistryReadView::Found(v@),
            RegistryRead::Missing => RegistryReadView::Missing,
            RegistryRead::Failed => RegistryReadView::Failed,
        }
    }
}

/// The UTF-16 code units of one character: the character's number where
/// it is below 65536, and a pair of surrogates otherwise.
pub open spec fn char_units(c: char) -> Seq<u16> {
    let code = c as u32;
    if code < 0x10000 {
        seq![code as u16]
    } else {
        seq![
            (0xD800 + (code - 0x10000) / 0x400) as u16,
            (0xDC00 + (code - 0x10000) % 0x400) as u16,
        ]
    }
}

/// The UTF-16 code units of a text.
pub open spec fn utf16_units(text: Seq<char>) -> Seq<u16>
    decreases text.len(),
{
    if text.len() == 0 {
        Seq::<u16>::empty()
    } else {
        utf16_units(text.drop_last()) + char_units(text.last())
    }
}

/// The bytes of code units, the low byte of each unit first.
pub open spec fn unit_bytes(units: Seq<u16>) -> Seq<u8>
    decreases units.len(),
{
    if units.len() == 0 {
        Seq::<u8>::empty()
    } else {
        unit_bytes(units.drop_last()) + seq![
            (units.last() % 256) as u8,
            (units.last() / 256) as u8,
        ]
    }
}

/// A text as the registry holds it: its UTF-16 code units and a closing
/// zero unit, the low byte of each unit first.
pub open spec fn winreg_bytes(text: Seq<char>) -> Seq<u8> {
    unit_bytes(utf16_units(text).push(0u16))
}

/// The code units that bytes hold, the low byte of each unit first. A
/// byte that is left over at the end is passed over.
pub open spec fn byte_units(bytes: Seq<u8>) -> Seq<u16> {
    Seq::new(
        (bytes.len() / 2) as nat,
        |i: int| (bytes[2 * i] as int + 256 * bytes[2 * i + 1] as int) as u16,
    )
}

/// What `String::from_utf16` makes of code units: the text that they
/// encode, or nothing where they are not valid UTF-16.
pub uninterp spec fn utf16_text(units: Seq<u16>) -> Option<Seq<char>>;

/// Hands `units` to `String::from_utf16` of std, which decodes them as
/// UTF-16 and refuses them where they are not valid. Nothing but the
/// units decides the result.
#[verifier::external_body]
fn decode_utf16(units: &Vec<u16>) -> (text: Option<String>)
    ensures
        opt_text(text) == utf16_text(units@),
{
    String::from_utf16(units).ok()
}

/// The text of a registry value, given what its code units decode to:
/// the decoded text without the zero characters that end it. A value that
/// is no text, or whose units decode to nothing, has no text.
pub open spec fn value_text(vtype: RegistryType, decoded: Option<Seq<char>>) -> Option<Seq<char>> {
    match vtype {
        RegistryType::Other => None,
        _ => match decoded {
            Some(text) => Some(without_trailing(text, '\0')),
            None => None,
        },
    }
}

/// The search path that a reading of the registry gives: the text of the
/// value that was found, which may be none; the empty path where there
/// is no value; and a failure where the registry could not be read.
pub open spec fn path_var(read: RegistryReadView) -> Result<Option<Seq<char>>, JvcError> {
    match read {
        RegistryReadView::Found(value) => Ok(
            value_text(value.vtype, utf16_text(byte_units(value.bytes))),
        ),
        RegistryReadView::Missing => Ok(Some(Seq::<char>::empty())),
        RegistryReadView::Failed => Err(JvcError::IOError),
    }
}

/// The search path with `value` and `suffix` put first, for a search path
/// that does not hold `value` yet. A search path that is no text, and one
/// that holds `value` already, is left as it is.
pub open spec fn extended_path(value: Seq<char>, suffix: Seq<char>, current: Option<Seq<char>>) -> Option<
    Seq<char>,
> {
    match current {
        Some(path) => if occurs_in(value, path) {
            None
        } else {
            Some(value + suffix + ";"@ + path)
        },
        None => None,
    }
}

/// What a registry value holds for a text with references to variables.
pub open spec fn expandable(text: Seq<char>) -> RegistryValueView {
    RegistryValueView { bytes: winreg_bytes(text), vtype: RegistryType::ExpandableText }
}

/// The view of an optional registry value.
pub open spec fn opt_value(v: Option<RegistryValue>) -> Option<RegistryValueView> {
    match v {
        Some(value) => Some(value@),
        None => None,
    }
}

/// The view of a reading of the search path.
pub open spec fn path_var_result(r: Result<Option<String>, JvcError>) -> Result<
    Option<Seq<char>>,
    JvcError,
> {
    match r {
        Ok(p) => Ok(opt_text(p)),
        Err(e) => Err(e),
    }
}

/// The command that sets the variable `name` to `value` for good.
pub open spec fn setx_text(name: Seq<char>, value: Seq<char>) -> Seq<char> {
    "SETX "@ + name + " "@ + value
}

/// The address of the program's own installer for a release, or for the
/// latest release where none is named.
pub open spec fn installer_address(release_tag: Option<Seq<char>>, filename: Seq<char>) -> Seq<char> {
    match release_tag {
        Some(tag) => "https://github.com/neculai-stanciu/jvc/releases/"@ + tag + "/download/"@
            + filename,
        None => "https://github.com/neculai-stanciu/jvc/releases/latest/download/"@ + filename,
    }
}

/// The UTF-16 code units of `s`.
pub fn utf16_of(s: &str) -> (units: Vec<u16>)
    ensures
        units@ == utf16_units(s@),
{
    let chars = chars_of(s);
    let mut units: Vec<u16> = Vec::new();
    let mut i: usize = 0;
    assert(s@.take(0) =~= Seq::<char>::empty());
    while i < chars.len()
        invariant
            chars@ == s@,
            i <= chars.len(),
            units@ == utf16_units(s@.take(i as int)),
        decreases chars.len() - i,
    {
        let ghost before = units@;
        let ghost t = s@.take(i + 1);
        assert(t.drop_last() =~= s@.take(i as int));
        assert(t.last() == chars@[i as int]);
        let code: u32 = chars[i] as u32;
        if code < 0x10000 {
            units.push(code as u16);
            assert(units@ =~= before + char_units(chars@[i as int]));
        } else {
            let rest: u32 = code - 0x10000;
            units.push((0xD800 + rest / 0x400) as u16);
            units.push((0xDC00 + rest % 0x400) as u16);
            assert(units@ =~= before + char_units(chars@[i as int]));
        }
        i += 1;
    }
    assert(s@.take(i as int) =~= s@);
    units
}

/// The bytes of `units`, the low byte of each unit first.
pub fn bytes_of_units(units: &Vec<u16>) -> (bytes: Vec<u8>)
    ensures
        bytes@ == unit_bytes(units@),
{
    let mut bytes: Vec<u8> = Vec::new();
    let mut i: usize = 0;
    assert(units@.take(0) =~= Seq::<u16>::empty());
    while i < units.len()
        invariant
            i <= units.len(),
            bytes@ == unit_bytes(units@.take(i as int)),
        decreases units.len() - i,
    {
        let ghost before = bytes@;
        let ghost t = units@.take(i + 1);
        assert(t.drop_last() =~= units@.take(i as int));
        assert(t.last() == units@[i as int]);
        let unit = units[i];
        bytes.push((unit % 256) as u8);
        bytes.push((unit / 256) as u8);
        assert(bytes@ =~= before + seq![(unit % 256) as u8, (unit / 256) as u8]);
        i += 1;
    }
    assert(units@.take(i as int) =~= units@);
    bytes
}

/// The code units that `bytes` hold, the low byte of each unit first.
pub fn units_of_bytes(bytes: &Vec<u8>) -> (units: Vec<u16>)
    ensures
        units@ == byte_units(bytes@),
{
    let count: usize = bytes.len() / 2;
    let mut units: Vec<u16> = Vec::new();
    let mut i: usize = 0;
    while i < count
        invariant
            count == bytes.len() / 2,
            i <= count,
            units@ == byte_units(bytes@).take(i as int),
        decreases count - i,
    {
        let ghost before = units@;
        let low: u16 = bytes[2 * i] as u16;
        let high: u16 = bytes[2 * i + 1] as u16;
        units.push(low + 256 * high);
        assert(units@ =~= before.push(byte_units(bytes@)[i as int]));
        assert(units@ =~= byte_units(bytes@).take(i + 1));
        i += 1;
    }
    assert(units@ =~= byte_units(bytes@));
    units
}

/// Encodes a text as the registry holds it: as UTF-16 with a closing zero
/// unit, the low byte of each unit first.
pub fn string_to_winreg_bytes(s: &str) -> (bytes: Vec<u8>)
    ensures
        bytes@ == winreg_bytes(s@),
{
    let mut units = utf16_of(s);
    units.push(0);
    bytes_of_units(&units)
}

/// The text of a registry value of the kind `vtype`, given what its code
/// units decode to.
pub fn text_of_value(vtype: RegistryType, decoded: Option<String>) -> (text: Option<String>)
    ensures
        opt_text(text) == value_text(vtype, opt_text(decoded)),
{
    match vtype {
        RegistryType::Other => None,
        _ => match decoded {
            Some(text) => Some(strip_trailing(text.as_str(), '\0')),
            None => None,
        },
    }
}

/// Decodes the text of a registry value. A value that is no text, or
/// that is not valid Unicode, decodes to nothing.
pub fn string_from_winreg_value(val: &RegistryValue) -> (text: Option<String>)
    ensures
        opt_text(text) == value_text(val@.vtype, utf16_text(byte_units(val@.bytes))),
        val@.vtype == RegistryType::Other ==> text is None,
{
    match val.vtype {
        RegistryType::Other => None,
        vtype => {
            let units = units_of_bytes(&val.bytes);
            text_of_value(vtype, decode_utf16(&units))
        },
    }
}

/// The search path of the user that a reading of the registry gives. No
/// path is given where the value is not valid Unicode: such a path is
/// left alone.
pub fn get_windows_path_var(read: &RegistryRead) -> (r: Result<Option<String>, JvcError>)
    ensures
        path_var_result(r) == path_var(read@),
{
    match read {
        RegistryRead::Found(val) => Ok(string_from_winreg_value(val)),
        RegistryRead::Missing => Ok(Some(String::new())),
        RegistryRead::Failed => Err(JvcError::IOError),
    }
}

/// The value to write for the search path, so that `value` followed by
/// `suffix` comes first on it; nothing where the search path is to be
/// left as it is.
pub fn extend_path(value: &str, suffix: &str, current: &Option<String>) -> (write: Option<
    RegistryValue,
>)
    ensures
        opt_value(write) == match extended_path(value@, suffix@, opt_text(*current)) {
            Some(path) => Some(expandable(path)),
            None => None,
        },
{
    match current {
        Some(path_val) => {
            if contains_text(path_val.as_str(), value) {
                None
            } else {
                let final_path = value.to_owned().concat(suffix).concat(";").concat(
                    path_val.as_str(),
                );
                Some(
                    RegistryValue {
                        bytes: string_to_winreg_bytes(final_path.as_str()),
                        vtype: RegistryType::ExpandableText,
                    },
                )
            }
        },
        None => None,
    }
}

/// The value to write for the search path, so that `value` comes first
/// on it; nothing where the search path is to be left as it is.
pub fn set_persistent_path(value: &str, current: &Option<String>) -> (write: Option<RegistryValue>)
    ensures
        opt_value(write) == match extended_path(value@, ""@, opt_text(*current)) {
            Some(path) => Some(expandable(path)),
            None => None,
        },
{
    extend_path(value, "", current)
}

/// What follows the link of the session on the search path: the
/// directory of the programs, with the given separator of path names.
pub open spec fn bin_suffix(separator: Seq<char>) -> Seq<char> {
    separator + "installation"@ + separator + "bin"@
}

impl Setup {
    /// The command that sets the variable `name` to `value` for good.
    pub fn set_persistent_env_var(&self, name: &str, value: &str) -> (command: String)
        ensures
            command@ == setx_text(name@, value@),
    {
        "SETX ".to_owned().concat(name).concat(" ").concat(value)
    }

    /// The value to write for the search path, so that the directory of
    /// the programs below `value` comes first on it, where `separator`
    /// separates path names; nothing where the search path is to be left
    /// as it is.
    pub fn set_persistent_path(&self, value: &str, separator: &str, current: &Option<String>) -> (write:
        Option<RegistryValue>)
        ensures
            opt_value(write) == match extended_path(
                value@,
                bin_suffix(separator@),
                opt_text(*current),
            ) {
                Some(path) => Some(expandable(path)),
                None => None,
            },
    {
        let suffix = separator.to_owned().concat("installation").concat(separator).concat("bin");
        extend_path(value, suffix.as_str(), current)
    }
}

/// The address of the program's own installer `filename` for the release
/// `release_tag`, or for the latest release where none is named.
pub fn installer_url(release_tag: &Option<String>, filename: &str) -> (url: String)
    ensures
        url@ == installer_address(opt_text(*release_tag), filename@),
{
    match release_tag {
        Some(tag) => "https://github.com/neculai-stanciu/jvc/releases/".to_owned().concat(
            tag.as_str(),
        ).concat("/download/").concat(filename),
        None => "https://github.com/neculai-stanciu/jvc/releases/latest/download/".to_owned().concat(
            filename,
        ),
    }
}

} // verus!
