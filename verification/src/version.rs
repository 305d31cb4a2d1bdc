//! The identity of a version and its canonical directory name.

use vstd::prelude::*;
use vstd::std_specs::cmp::PartialEqSpecImpl;
use crate::error::JvcError;
use crate::path::opt_text;
use crate::provider::{
    Provider, provider_code, provider_of_code, lemma_provider_code_has_no_dash,
    lemma_provider_code_round_trip,
};
use crate::text::{
    decimal, decimal_text, joined, parse_unsigned, parse_u8, parse_u32, same_text, split,
    split_text, lemma_decimal_lacks, lemma_split_append_piece, lemma_split_joined,
    lemma_split_nonempty, lemma_split_pieces_lack_sep, lemma_split_without_sep,
    lemma_parse_decimal,
};

verus! {

/// One major version of the runtime as one provider offers or has installed it.
#[derive(Debug)]
pub struct Version {
    /// The major version number, as text.
    pub value: String,
    /// Whether the provider flags this version as long-term support.
    pub lts: bool,
    /// The provider of the build.
    pub provider: Provider,
    /// The full version of the build, where it is known.
    pub semver_value: Option<String>,
}

/// What a `Version` holds, as plain values.
pub struct VersionView {
    pub value: Seq<char>,
    pub lts: bool,
    pub provider: Provider,
    pub semver_value: Option<Seq<char>>,
}

impl View for Version {
    type V = VersionView;

    open spec fn view(&self) -> VersionView {
        VersionView {
            value: self.value@,
            lts: self.lts,
            provider: self.provider,
            semver_value: opt_text(self.semver_value),
        }
    }
}

impl DeepView for Version {
    type V = VersionView;

    open spec fn deep_view(&self) -> VersionView {
        self@
    }
}

/// The version with number `n`, as a provider's listing gives it.
pub open spec fn numbered(n: nat, lts: bool, provider: Provider) -> VersionView {
    VersionView { value: decimal(n), lts, provider, semver_value: None }
}

/// The canonical directory name of a version: its value and its provider's
/// code joined by a dash, with `lts` between them for a long-term-support version.
pub open spec fn encode(v: VersionView) -> Seq<char> {
    if v.lts {
        v.value + seq!['-'] + "lts"@ + seq!['-'] + provider_code(v.provider)
    } else {
        v.value + seq!['-'] + provider_code(v.provider)
    }
}

/// The version that a directory name stands for. The name is split at its
/// dashes: two pieces are a value and a provider code, three pieces with
/// `lts` in the middle are a long-term-support version. Every other name is
/// refused.
pub open spec fn decode(name: Seq<char>) -> Result<VersionView, JvcError> {
    let pieces = split(name, '-');
    if pieces.len() == 2 {
        match provider_of_code(pieces[1]) {
            Some(p) => Ok(VersionView { value: pieces[0], lts: false, provider: p, semver_value: None }),
            None => Err(JvcError::UnknownProviderCode),
        }
    } else if pieces.len() == 3 && pieces[1] == "lts"@ {
        match provider_of_code(pieces[2]) {
            Some(p) => Ok(VersionView { value: pieces[0], lts: true, provider: p, semver_value: None }),
            None => Err(JvcError::UnknownProviderCode),
        }
    } else {
        Err(JvcError::MalformedVersionName)
    }
}

/// The number of a version: its value read as a number from 0 to 255.
pub open spec fn version_number(v: VersionView) -> Option<nat> {
    parse_unsigned(v.value, 255)
}

/// The number by which listings order versions: the value read as a number,
/// and 0 where it cannot be read.
pub open spec fn numeric_key(v: VersionView) -> nat {
    match parse_unsigned(v.value, 0xFFFF_FFFF) {
        Some(n) => n,
        None => 0,
    }
}

/// The view of a decoding result.
pub open spec fn decoded_view(r: Result<Version, JvcError>) -> Result<VersionView, JvcError> {
    match r {
        Ok(v) => Ok(v@),
        Err(e) => Err(e),
    }
}

/// Decoding the directory name of a version gives the version back, provided
/// that its value holds no dash and that it carries no full version, which
/// directory names do not record.
pub proof fn lemma_decode_encode(v: VersionView)
    requires
        !v.value.contains('-'),
        v.semver_value is None,
    ensures
        decode(encode(v)) == Ok::<VersionView, JvcError>(v),
{
    let code = provider_code(v.provider);
    lemma_provider_code_has_no_dash(v.provider);
    lemma_provider_code_round_trip(v.provider);
    lemma_split_without_sep(v.value, '-');
    reveal_strlit("lts");
    if v.lts {
        let head = v.value + seq!['-'] + "lts"@;
        lemma_split_append_piece(v.value, '-', "lts"@);
        lemma_split_append_piece(head, '-', code);
        let pieces = split(encode(v), '-');
        assert(pieces =~= seq![v.value, "lts"@, code]);
    } else {
        lemma_split_append_piece(v.value, '-', code);
        let pieces = split(encode(v), '-');
        assert(pieces =~= seq![v.value, code]);
    }
}

/// A directory name that stands for a version is the directory name of
/// that version, and the version's value holds no dash: no two names stand
/// for the same version.
pub proof fn lemma_encode_decode(name: Seq<char>)
    ensures
        decode(name) matches Ok(v) ==> encode(v) == name && !v.value.contains('-')
            && v.semver_value is None,
{
    if let Ok(v) = decode(name) {
        let pieces = split(name, '-');
        lemma_split_joined(name, '-');
        lemma_split_pieces_lack_sep(name, '-');
        assert(!pieces[0].contains('-'));
        if pieces.len() == 2 {
            assert(pieces.drop_last() =~= seq![pieces[0]]);
            assert(joined(pieces.drop_last(), '-') == pieces[0]);
            assert(joined(pieces, '-') == pieces[0] + seq!['-'] + pieces[1]);
        } else {
            let two = pieces.drop_last();
            assert(two.drop_last() =~= seq![pieces[0]]);
            assert(joined(two.drop_last(), '-') == pieces[0]);
            assert(joined(two, '-') == pieces[0] + seq!['-'] + pieces[1]);
            assert(joined(pieces, '-') == pieces[0] + seq!['-'] + pieces[1] + seq!['-']
                + pieces[2]);
        }
    }
}

/// Every version that a listing yields is found again from its directory name.
pub proof fn lemma_numbered_round_trip(n: nat, lts: bool, provider: Provider)
    ensures
        decode(encode(numbered(n, lts, provider))) == Ok::<VersionView, JvcError>(
            numbered(n, lts, provider),
        ),
{
    lemma_decimal_lacks(n, '-');
    lemma_decode_encode(numbered(n, lts, provider));
}

/// A name with fewer than two pieces, or whose last piece is no provider's
/// code, is refused.
pub proof fn lemma_decode_rejects(name: Seq<char>)
    ensures
        split(name, '-').len() < 2 ==> decode(name) == Err::<VersionView, JvcError>(
            JvcError::MalformedVersionName,
        ),
        provider_of_code(split(name, '-').last()) is None ==> decode(name) is Err,
        !name.contains('-') ==> decode(name) is Err,
{
    lemma_split_nonempty(name, '-');
    if !name.contains('-') {
        lemma_split_without_sep(name, '-');
    }
}

/// A version made from a number below 256 has that number.
pub proof fn lemma_numbered_version_number(n: nat, lts: bool, provider: Provider)
    requires
        n <= 255,
    ensures
        version_number(numbered(n, lts, provider)) == Some(n),
{
    lemma_parse_decimal(n, 255);
}

/// A version made from a number is ordered by that number.
pub proof fn lemma_numbered_numeric_key(n: nat, lts: bool, provider: Provider)
    requires
        n <= 0xFFFF_FFFF,
    ensures
        numeric_key(numbered(n, lts, provider)) == n,
{
    lemma_parse_decimal(n, 0xFFFF_FFFF);
}

/// A copy of an optional text.
pub fn clone_opt_text(t: &Option<String>) -> (r: Option<String>)
    ensures
        opt_text(r) == opt_text(*t),
{
    match t {
        Some(s) => Some(s.clone()),
        None => None,
    }
}

/// Whether two optional texts are both absent or hold the same characters.
pub fn same_opt_text(a: &Option<String>, b: &Option<String>) -> (same: bool)
    ensures
        same == (opt_text(*a) == opt_text(*b)),
{
    match (a, b) {
        (Some(x), Some(y)) => *x == *y,
        (None, None) => true,
        _ => false,
    }
}

impl Clone for Version {
    fn clone(&self) -> (r: Self)
        ensures
            r@ == self@,
    {
        Version {
            value: self.value.clone(),
            lts: self.lts,
            provider: self.provider,
            semver_value: clone_opt_text(&self.semver_value),
        }
    }
}

impl PartialEq for Version {
    fn eq(&self, other: &Self) -> (r: bool) {
        self.value == other.value && self.lts == other.lts && self.provider == other.provider
            && same_opt_text(&self.semver_value, &other.semver_value)
    }
}

impl PartialEqSpecImpl for Version {
    open spec fn obeys_eq_spec() -> bool {
        true
    }

    open spec fn eq_spec(&self, other: &Self) -> bool {
        self@ == other@
    }
}

impl Eq for Version {

}

impl Version {
    /// The version with number `value`, without a full version.
    pub fn new(value: u32, is_lts: bool, provider: Provider) -> (v: Self)
        ensures
            v@ == numbered(value as nat, is_lts, provider),
    {
        Self { value: decimal_text(value as u64), lts: is_lts, semver_value: None, provider }
    }

    /// The version that the directory name `name` stands for.
    pub fn new_from_disk(name: &str) -> (r: Result<Self, JvcError>)
        ensures
            decoded_view(r) == decode(name@),
    {
        let mut pieces = split_text(name, '-');
        let ghost all = pieces.deep_view();
        if pieces.len() == 2 {
            let code = pieces.pop().unwrap();
            let value = pieces.pop().unwrap();
            assert(code@ == all[1]);
            assert(value@ == all[0]);
            match Provider::from_code(code.as_str()) {
                Ok(provider) => Ok(Self { value, lts: false, provider, semver_value: None }),
                Err(e) => Err(e),
            }
        } else if pieces.len() == 3 {
            let code = pieces.pop().unwrap();
            let marker = pieces.pop().unwrap();
            let value = pieces.pop().unwrap();
            assert(code@ == all[2]);
            assert(marker@ == all[1]);
            assert(value@ == all[0]);
            if !same_text(marker.as_str(), "lts") {
                return Err(JvcError::MalformedVersionName);
            }
            match Provider::from_code(code.as_str()) {
                Ok(provider) => Ok(Self { value, lts: true, provider, semver_value: None }),
                Err(e) => Err(e),
            }
        } else {
            Err(JvcError::MalformedVersionName)
        }
    }

    /// Whether this is a long-term-support version.
    pub fn is_lts(&self) -> (lts: bool)
        ensures
            lts == self@.lts,
    {
        self.lts
    }

    /// The canonical directory name of this version.
    pub fn as_disk_version(&self) -> (name: String)
        ensures
            name@ == encode(self@),
    {
        let code = self.provider.as_str();
        proof {
            reveal_strlit("-");
            reveal_strlit("-lts-");
            reveal_strlit("lts");
            assert("-"@ =~= seq!['-']);
            assert("-lts-"@ =~= seq!['-'] + "lts"@ + seq!['-']);
        }
        if self.lts {
            let name = self.value.clone().concat("-lts-").concat(code.as_str());
            assert(name@ =~= encode(self@));
            name
        } else {
            let name = self.value.clone().concat("-").concat(code.as_str());
            assert(name@ =~= encode(self@));
            name
        }
    }

    /// The number of this version, for a value that reads as a number from 0
    /// to 255; any other value is refused with `InvalidVersionNumber`.
    pub fn to_version_number(&self) -> (r: Result<u8, JvcError>)
        ensures
            match r {
                Ok(n) => version_number(self@) == Some(n as nat),
                Err(e) => e == JvcError::InvalidVersionNumber && version_number(self@) is None,
            },
    {
        match parse_u8(self.value.as_str()) {
            Some(n) => Ok(n),
            None => Err(JvcError::InvalidVersionNumber),
        }
    }

    /// The number by which listings order this version.
    pub fn numeric_value(&self) -> (n: u32)
        ensures
            n == numeric_key(self@),
    {
        match parse_u32(self.value.as_str()) {
            Some(n) => n,
            None => 0,
        }
    }

    /// Whether this version comes no later than `other` in a listing.
    pub fn numeric_le(&self, other: &Version) -> (le: bool)
        ensures
            le == (numeric_key(self@) <= numeric_key(other@)),
    {
        self.numeric_value() <= other.numeric_value()
    }

    /// The text that stands for this version in a listing: its value.
    pub fn to_string(&self) -> (text: String)
        ensures
            text@ == self@.value,
    {
        self.value.clone()
    }
}

} // verus!
