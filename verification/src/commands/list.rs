//! Listing: which versions are installed, which aliases point at them, and
//! what a listing shows.

use vstd::prelude::*;
use crate::config::VersionRequirements;
use crate::error::JvcError;
use crate::path::{file_name, file_name_of, join, join_path, opt_text};
use crate::provider::provider_code;
use crate::text::same_text;
use crate::version::{Version, VersionView, clone_opt_text, decode, version_number};

verus! {

/// The listing command.
#[derive(Debug)]
pub struct List {
    /// Whether to list what the provider offers, in place of what is installed.
    pub remote: bool,
    /// What the listed builds must be like.
    pub requirements: VersionRequirements,
}

/// `names` without the entries that equal `reserved`, in their order.
pub open spec fn without(names: Seq<Seq<char>>, reserved: Seq<char>) -> Seq<Seq<char>>
    decreases names.len(),
{
    if names.len() == 0 {
        names
    } else if names.last() == reserved {
        without(names.drop_last(), reserved)
    } else {
        without(names.drop_last(), reserved).push(names.last())
    }
}

/// The names of the installed versions among the entries of the
/// installation directory: all of them but the download directory.
pub open spec fn installed_names(entries: Seq<Seq<char>>) -> Seq<Seq<char>> {
    without(entries, ".downloads"@)
}

/// The names of the installed versions among `entries`, the names in the
/// installation directory: every entry but `.downloads`, in the given order.
pub fn list_installed_versions(entries: Vec<String>) -> (names: Vec<String>)
    ensures
        names.deep_view() == installed_names(entries.deep_view()),
{
    let mut names: Vec<String> = Vec::new();
    let mut i: usize = 0;
    let ghost all = entries.deep_view();
    assert(all.take(0) =~= Seq::<Seq<char>>::empty());
    while i < entries.len()
        invariant
            i <= entries.len(),
            all == entries.deep_view(),
            names.deep_view() == installed_names(all.take(i as int)),
        decreases entries.len() - i,
    {
        let ghost before = names.deep_view();
        let ghost t = all.take(i + 1);
        assert(t.drop_last() =~= all.take(i as int));
        assert(t.last() == entries[i as int]@);
        if !same_text(entries[i].as_str(), ".downloads") {
            names.push(entries[i].clone());
            assert(names.deep_view() =~= before.push(entries[i as int]@));
        }
        i += 1;
    }
    assert(all.take(i as int) =~= all);
    names
}

/// An installed version together with its directory.
#[derive(Debug)]
pub struct VersionPath {
    /// The directory of the version.
    pub path: String,
    /// The version that the directory's name stands for.
    pub version: Version,
}

/// What a `VersionPath` holds, as plain values.
pub struct VersionPathView {
    pub path: Seq<char>,
    pub version: VersionView,
}

impl View for VersionPath {
    type V = VersionPathView;

    open spec fn view(&self) -> VersionPathView {
        VersionPathView { path: self.path@, version: self.version@ }
    }
}

impl VersionPath {
    /// The directory of the version.
    pub fn path(&self) -> (path: &str)
        ensures
            path@ == self@.path,
    {
        self.path.as_str()
    }
}

/// Whether the directory name `name` stands for a version with number `n`.
pub open spec fn has_number(name: Seq<char>, n: u8) -> bool {
    match decode(name) {
        Ok(v) => version_number(v) == Some(n as nat),
        Err(_) => false,
    }
}

/// The installed version that `name` stands for, in the installation directory `dir`.
pub open spec fn version_path(dir: Seq<char>, name: Seq<char>) -> VersionPathView {
    VersionPathView { path: join(dir, name), version: decode(name)->Ok_0 }
}

/// The first of `names` that stands for a version with number `n`, with
/// its directory in `dir`; nothing where no name does.
pub open spec fn first_with_number(names: Seq<Seq<char>>, n: u8, dir: Seq<char>) -> Option<
    VersionPathView,
>
    decreases names.len(),
{
    if names.len() == 0 {
        None
    } else if has_number(names[0], n) {
        Some(version_path(dir, names[0]))
    } else {
        first_with_number(names.drop_first(), n, dir)
    }
}

/// The view of an optional installed version.
pub open spec fn opt_version_path(p: Option<VersionPath>) -> Option<VersionPathView> {
    match p {
        Some(vp) => Some(vp@),
        None => None,
    }
}

/// What `first_with_number` finds is one of the names, stands for a version
/// with the number asked for, and no name before it does.
pub proof fn lemma_first_with_number(names: Seq<Seq<char>>, n: u8, dir: Seq<char>)
    ensures
        match first_with_number(names, n, dir) {
            Some(found) => exists|i: int|
                0 <= i < names.len() && has_number(names[i], n) && found == version_path(
                    dir,
                    #[trigger] names[i],
                ) && forall|j: int| 0 <= j < i ==> !has_number(names[j], n),
            None => forall|i: int| 0 <= i < names.len() ==> !has_number(names[i], n),
        },
    decreases names.len(),
{
    if names.len() == 0 {
    } else if has_number(names[0], n) {
        assert(version_path(dir, names[0]) == version_path(dir, names[0]));
    } else {
        let rest = names.drop_first();
        lemma_first_with_number(rest, n, dir);
        match first_with_number(rest, n, dir) {
            Some(found) => {
                let i = choose|i: int|
                    0 <= i < rest.len() && has_number(rest[i], n) && found == version_path(
                        dir,
                        #[trigger] rest[i],
                    ) && forall|j: int| 0 <= j < i ==> !has_number(rest[j], n);
                assert(rest[i] == names[i + 1]);
                assert forall|j: int| 0 <= j < i + 1 implies !has_number(names[j], n) by {
                    if j > 0 {
                        assert(rest[j - 1] == names[j]);
                    }
                }
                assert(found == version_path(dir, names[i + 1]));
            },
            None => {
                assert forall|i: int| 0 <= i < names.len() implies !has_number(names[i], n) by {
                    if i > 0 {
                        assert(rest[i - 1] == names[i]);
                    }
                }
            },
        }
    }
}

/// The installed version with number `to_version`: the first of
/// `installed`, the names of the installed versions, that stands for a
/// version with that number, with its directory in `installation_dir`.
/// Names that stand for no version, or for a version whose value is no
/// number, are passed over. Finding nothing is no failure.
pub fn find_version(to_version: u8, installed: &Vec<String>, installation_dir: &str) -> (found: Option<
    VersionPath,
>)
    ensures
        opt_version_path(found) == first_with_number(
            installed.deep_view(),
            to_version,
            installation_dir@,
        ),
{
    let ghost all = installed.deep_view();
    let mut i: usize = 0;
    assert(all.skip(0) =~= all);
    while i < installed.len()
        invariant
            i <= installed.len(),
            all == installed.deep_view(),
            first_with_number(all, to_version, installation_dir@) == first_with_number(
                all.skip(i as int),
                to_version,
                installation_dir@,
            ),
        decreases installed.len() - i,
    {
        let ghost rest = all.skip(i as int);
        assert(rest[0] == installed[i as int]@);
        assert(rest.drop_first() =~= all.skip(i + 1));
        match Version::new_from_disk(installed[i].as_str()) {
            Ok(version) => {
                match version.to_version_number() {
                    Ok(n) => {
                        if n == to_version {
                            let path = join_path(installation_dir, installed[i].as_str());
                            return Some(VersionPath { path, version });
                        }
                    },
                    Err(_) => {},
                }
            },
            Err(_) => {},
        }
        i += 1;
    }
    None
}

/// The state of an alias name in the aliases directory.
#[derive(Debug)]
pub enum AliasState {
    /// There is no link of that name.
    Absent,
    /// There is a link, and its target, given here, exists.
    ValidLink(String),
    /// There is a link, but its target, given here, is missing.
    DanglingLink(String),
}

/// What an `AliasState` holds, as plain values.
pub enum AliasStateView {
    Absent,
    ValidLink(Seq<char>),
    DanglingLink(Seq<char>),
}

impl View for AliasState {
    type V = AliasStateView;

    open spec fn view(&self) -> AliasStateView {
        match self {
            AliasState::Absent => AliasStateView::Absent,
            AliasState::ValidLink(t) => AliasStateView::ValidLink(t@),
            AliasState::DanglingLink(t) => AliasStateView::DanglingLink(t@),
        }
    }
}

/// One entry of the aliases directory as its reader found it.
#[derive(Debug)]
pub struct LinkEntry {
    /// The path of the entry.
    pub path: String,
    /// What the entry is: no link, a link to something, or a link to nothing.
    pub state: AliasState,
}

impl DeepView for LinkEntry {
    type V = (Seq<char>, AliasStateView);

    open spec fn deep_view(&self) -> (Seq<char>, AliasStateView) {
        (self.path@, self.state@)
    }
}

/// An alias as a listing shows it.
#[derive(Debug)]
pub struct AliasVersion {
    /// The version that the alias stands for, where its target's name tells one.
    pub version: Option<Version>,
    /// Whether the alias is broken: its target is missing or names no version.
    pub is_invalid: bool,
    /// The name of the alias.
    pub alias_name: String,
    /// The path of the link.
    pub alias_path: String,
    /// The target of the link, where it exists.
    pub target_path: Option<String>,
}

/// What an `AliasVersion` holds, as plain values.
pub struct AliasVersionView {
    pub version: Option<VersionView>,
    pub is_invalid: bool,
    pub alias_name: Seq<char>,
    pub alias_path: Seq<char>,
    pub target_path: Option<Seq<char>>,
}

/// The view of an optional version.
pub open spec fn opt_version(v: Option<Version>) -> Option<VersionView> {
    match v {
        Some(version) => Some(version@),
        None => None,
    }
}

impl View for AliasVersion {
    type V = AliasVersionView;

    open spec fn view(&self) -> AliasVersionView {
        AliasVersionView {
            version: opt_version(self.version),
            is_invalid: self.is_invalid,
            alias_name: self.alias_name@,
            alias_path: self.alias_path@,
            target_path: opt_text(self.target_path),
        }
    }
}

impl DeepView for AliasVersion {
    type V = AliasVersionView;

    open spec fn deep_view(&self) -> AliasVersionView {
        self@
    }
}

/// The final name of `path`, or the empty text where it has none.
pub open spec fn name_or_empty(path: Seq<char>) -> Seq<char> {
    match file_name(path) {
        Some(name) => name,
        None => Seq::<char>::empty(),
    }
}

/// The version that the final name of `path` stands for, if it stands for one.
pub open spec fn version_at(path: Seq<char>) -> Option<VersionView> {
    match file_name(path) {
        Some(name) => match decode(name) {
            Ok(v) => Some(v),
            Err(_) => None,
        },
        None => None,
    }
}

/// The alias at `alias_path` whose link leads to the existing `target_path`.
/// It stands for the version that the target's final name tells, and is
/// broken where that name tells none.
pub open spec fn linked_alias(target_path: Seq<char>, alias_path: Seq<char>) -> AliasVersionView {
    AliasVersionView {
        version: version_at(target_path),
        is_invalid: version_at(target_path) is None,
        alias_name: name_or_empty(alias_path),
        alias_path,
        target_path: Some(target_path),
    }
}

/// The alias at `alias_path` whose link leads nowhere.
pub open spec fn broken_alias(alias_path: Seq<char>) -> AliasVersionView {
    AliasVersionView {
        version: None,
        is_invalid: true,
        alias_name: name_or_empty(alias_path),
        alias_path,
        target_path: None,
    }
}

/// The final name of `path`, or the empty text where it has none.
fn name_of(path: &str) -> (name: String)
    ensures
        name@ == name_or_empty(path@),
{
    match file_name_of(path) {
        Some(name) => name,
        None => String::new(),
    }
}

impl Clone for AliasVersion {
    fn clone(&self) -> (r: Self)
        ensures
            r@ == self@,
    {
        AliasVersion {
            version: match &self.version {
                Some(v) => Some(v.clone()),
                None => None,
            },
            is_invalid: self.is_invalid,
            alias_name: self.alias_name.clone(),
            alias_path: self.alias_path.clone(),
            target_path: clone_opt_text(&self.target_path),
        }
    }
}

impl AliasVersion {
    /// Whether the alias stands for the version `ver`.
    pub fn contains_version(&self, ver: &Version) -> (contains: bool)
        ensures
            contains == (self@.version == Some(ver@)),
    {
        if let Some(av) = &self.version {
            *av == *ver
        } else {
            false
        }
    }

    /// The alias at `alias_path` whose link leads to the existing `target_path`.
    pub fn new(target_path: String, alias_path: String) -> (alias: Self)
        ensures
            alias@ == linked_alias(target_path@, alias_path@),
    {
        let version = match file_name_of(target_path.as_str()) {
            Some(name) => match Version::new_from_disk(name.as_str()) {
                Ok(v) => Some(v),
                Err(_) => None,
            },
            None => None,
        };
        Self {
            alias_name: name_of(alias_path.as_str()),
            alias_path,
            is_invalid: version.is_none(),
            target_path: Some(target_path),
            version,
        }
    }

    /// The alias at `alias_path` whose link leads nowhere.
    pub fn new_invalid_alias(alias_path: String) -> (alias: Self)
        ensures
            alias@ == broken_alias(alias_path@),
    {
        Self {
            alias_name: name_of(alias_path.as_str()),
            alias_path,
            is_invalid: true,
            target_path: None,
            version: None,
        }
    }
}

/// The aliases among the entries of the aliases directory, in their order.
/// An entry that is no link is passed over; a link to an existing target
/// is shown with its version; a link to a missing target is shown as broken.
pub open spec fn aliases_of(entries: Seq<(Seq<char>, AliasStateView)>) -> Seq<AliasVersionView>
    decreases entries.len(),
{
    if entries.len() == 0 {
        Seq::<AliasVersionView>::empty()
    } else {
        let init = aliases_of(entries.drop_last());
        match entries.last().1 {
            AliasStateView::Absent => init,
            AliasStateView::ValidLink(target) => init.push(linked_alias(target, entries.last().0)),
            AliasStateView::DanglingLink(_) => init.push(broken_alias(entries.last().0)),
        }
    }
}

/// The aliases among `entries`, the entries of the aliases directory.
/// Broken links are reported as broken aliases; they do not fail the listing.
pub fn list_aliases_versions(entries: Vec<LinkEntry>) -> (aliases: Vec<AliasVersion>)
    ensures
        aliases.deep_view() == aliases_of(entries.deep_view()),
{
    let mut aliases: Vec<AliasVersion> = Vec::new();
    let ghost all = entries.deep_view();
    let mut i: usize = 0;
    assert(all.take(0) =~= Seq::<(Seq<char>, AliasStateView)>::empty());
    while i < entries.len()
        invariant
            i <= entries.len(),
            all == entries.deep_view(),
            aliases.deep_view() == aliases_of(all.take(i as int)),
        decreases entries.len() - i,
    {
        let ghost before = aliases.deep_view();
        let ghost t = all.take(i + 1);
        assert(t.drop_last() =~= all.take(i as int));
        assert(t.last() == entries[i as int].deep_view());
        let entry = &entries[i];
        match &entry.state {
            AliasState::Absent => {},
            AliasState::ValidLink(target) => {
                let alias = AliasVersion::new(target.clone(), entry.path.clone());
                aliases.push(alias);
                assert(aliases.deep_view() =~= before.push(linked_alias(target@, entry.path@)));
            },
            AliasState::DanglingLink(_) => {
                let alias = AliasVersion::new_invalid_alias(entry.path.clone());
                aliases.push(alias);
                assert(aliases.deep_view() =~= before.push(broken_alias(entry.path@)));
            },
        }
        i += 1;
    }
    assert(all.take(i as int) =~= all);
    aliases
}

/// The aliases among `aliases` that stand for `version`, in their order.
pub open spec fn aliases_for(aliases: Seq<AliasVersionView>, version: VersionView) -> Seq<
    AliasVersionView,
>
    decreases aliases.len(),
{
    if aliases.len() == 0 {
        aliases
    } else if aliases.last().version == Some(version) {
        aliases_for(aliases.drop_last(), version).push(aliases.last())
    } else {
        aliases_for(aliases.drop_last(), version)
    }
}

/// The aliases among `alias_versions` that stand for `v`, in their order.
pub fn find_alias_version(alias_versions: &Vec<AliasVersion>, v: &Version) -> (found: Vec<
    AliasVersion,
>)
    ensures
        found.deep_view() == aliases_for(alias_versions.deep_view(), v@),
{
    let mut found: Vec<AliasVersion> = Vec::new();
    let ghost all = alias_versions.deep_view();
    let mut i: usize = 0;
    assert(all.take(0) =~= Seq::<AliasVersionView>::empty());
    while i < alias_versions.len()
        invariant
            i <= alias_versions.len(),
            all == alias_versions.deep_view(),
            found.deep_view() == aliases_for(all.take(i as int), v@),
        decreases alias_versions.len() - i,
    {
        let ghost before = found.deep_view();
        let ghost t = all.take(i + 1);
        assert(t.drop_last() =~= all.take(i as int));
        assert(t.last() == alias_versions[i as int]@);
        if alias_versions[i].contains_version(v) {
            found.push(alias_versions[i].clone());
            assert(found.deep_view() =~= before.push(alias_versions[i as int]@));
        }
        i += 1;
    }
    assert(all.take(i as int) =~= all);
    found
}

/// The versions that the names of installed versions stand for.
pub open spec fn decoded_all(names: Seq<Seq<char>>) -> Result<Seq<VersionView>, JvcError>
    decreases names.len(),
{
    if names.len() == 0 {
        Ok(Seq::<VersionView>::empty())
    } else {
        match decoded_all(names.drop_last()) {
            Ok(init) => match decode(names.last()) {
                Ok(v) => Ok(init.push(v)),
                Err(e) => Err(e),
            },
            Err(e) => Err(e),
        }
    }
}

/// The view of a result that holds versions.
pub open spec fn versions_result(r: Result<Vec<Version>, JvcError>) -> Result<
    Seq<VersionView>,
    JvcError,
> {
    match r {
        Ok(v) => Ok(v.deep_view()),
        Err(e) => Err(e),
    }
}

/// The versions that `names`, the names of the installed versions, stand
/// for, in their order. The first name that stands for no version fails
/// the whole with the reason for which it was refused.
pub fn installed_versions(names: &Vec<String>) -> (versions: Result<Vec<Version>, JvcError>)
    ensures
        versions_result(versions) == decoded_all(names.deep_view()),
{
    let mut versions: Vec<Version> = Vec::new();
    let ghost all = names.deep_view();
    let mut i: usize = 0;
    assert(all.take(0) =~= Seq::<Seq<char>>::empty());
    assert(versions.deep_view() =~= Seq::<VersionView>::empty());
    while i < names.len()
        invariant
            i <= names.len(),
            all == names.deep_view(),
            decoded_all(all.take(i as int)) == Ok::<Seq<VersionView>, JvcError>(
                versions.deep_view(),
            ),
        decreases names.len() - i,
    {
        let ghost before = versions.deep_view();
        let ghost t = all.take(i + 1);
        assert(t.drop_last() =~= all.take(i as int));
        assert(t.last() == names[i as int]@);
        match Version::new_from_disk(names[i].as_str()) {
            Ok(v) => {
                versions.push(v);
                assert(versions.deep_view() =~= before.push(decode(t.last())->Ok_0));
            },
            Err(e) => {
                proof {
                    lemma_decoded_all_fails(all, i + 1);
                }
                return Err(e);
            },
        }
        i += 1;
    }
    assert(all.take(i as int) =~= all);
    Ok(versions)
}

/// Once a beginning of the names fails to decode, the whole fails in the same way.
pub proof fn lemma_decoded_all_fails(names: Seq<Seq<char>>, k: int)
    requires
        0 <= k <= names.len(),
        decoded_all(names.take(k)) is Err,
    ensures
        decoded_all(names) == decoded_all(names.take(k)),
    decreases names.len() - k,
{
    if k == names.len() {
        assert(names.take(k) =~= names);
    } else {
        assert(names.drop_last().take(k) =~= names.take(k));
        lemma_decoded_all_fails(names.drop_last(), k);
    }
}

/// One line of a listing.
#[derive(Debug)]
pub struct ListRow {
    /// Whether the version is marked as long-term support.
    pub lts: bool,
    /// The version's value.
    pub value: String,
    /// The provider's code, shown for installed versions only.
    pub provider: Option<String>,
    /// The names of the aliases that stand for the version.
    pub aliases: Vec<String>,
}

/// What a `ListRow` holds, as plain values.
pub struct ListRowView {
    pub lts: bool,
    pub value: Seq<char>,
    pub provider: Option<Seq<char>>,
    pub aliases: Seq<Seq<char>>,
}

impl DeepView for ListRow {
    type V = ListRowView;

    open spec fn deep_view(&self) -> ListRowView {
        ListRowView {
            lts: self.lts,
            value: self.value@,
            provider: opt_text(self.provider),
            aliases: self.aliases.deep_view(),
        }
    }
}

/// The names of the given aliases, in their order.
pub open spec fn alias_names(aliases: Seq<AliasVersionView>) -> Seq<Seq<char>> {
    Seq::new(aliases.len(), |i: int| aliases[i].alias_name)
}

/// The line that a listing shows for `version`: its mark, its value, its
/// provider unless the listing is of what a provider offers, and the
/// aliases that stand for it.
pub open spec fn row_of(version: VersionView, aliases: Seq<AliasVersionView>, remote: bool) -> ListRowView {
    ListRowView {
        lts: version.lts,
        value: version.value,
        provider: if remote {
            None
        } else {
            Some(provider_code(version.provider))
        },
        aliases: alias_names(aliases_for(aliases, version)),
    }
}

/// The lines that a listing shows for `versions`, one for each, in their order.
pub open spec fn rows_of(versions: Seq<VersionView>, aliases: Seq<AliasVersionView>, remote: bool) -> Seq<
    ListRowView,
> {
    Seq::new(versions.len(), |i: int| row_of(versions[i], aliases, remote))
}

/// The text of a line: `*` or a blank for the mark, the value, the
/// provider or a blank, and each alias in square brackets.
pub open spec fn row_text(row: ListRowView) -> Seq<char> {
    (if row.lts {
        "*"@
    } else {
        " "@
    }) + "- "@ + row.value + " "@ + (match row.provider {
        Some(p) => "- "@ + p,
        None => " "@,
    }) + bracketed(row.aliases)
}

/// Each of `names` in square brackets behind a blank.
pub open spec fn bracketed(names: Seq<Seq<char>>) -> Seq<char>
    decreases names.len(),
{
    if names.len() == 0 {
        Seq::<char>::empty()
    } else {
        bracketed(names.drop_last()) + " ["@ + names.last() + "]"@
    }
}

impl ListRow {
    /// The text of the line, without colours.
    pub fn render(&self) -> (text: String)
        ensures
            text@ == row_text(self.deep_view()),
    {
        let mark = if self.lts {
            "*"
        } else {
            " "
        };
        let head = mark.to_owned().concat("- ").concat(self.value.as_str()).concat(" ");
        let provider = match &self.provider {
            Some(p) => "- ".to_owned().concat(p.as_str()),
            None => " ".to_owned(),
        };
        let mut tail = String::new();
        let ghost names = self.aliases.deep_view();
        let mut i: usize = 0;
        assert(names.take(0) =~= Seq::<Seq<char>>::empty());
        while i < self.aliases.len()
            invariant
                i <= self.aliases.len(),
                names == self.aliases.deep_view(),
                tail@ == bracketed(names.take(i as int)),
            decreases self.aliases.len() - i,
        {
            let ghost t = names.take(i + 1);
            assert(t.drop_last() =~= names.take(i as int));
            assert(t.last() == self.aliases[i as int]@);
            tail = tail.concat(" [").concat(self.aliases[i].as_str()).concat("]");
            i += 1;
        }
        assert(names.take(i as int) =~= names);
        let text = head.concat(provider.as_str()).concat(tail.as_str());
        assert(text@ =~= row_text(self.deep_view()));
        text
    }
}

impl List {
    /// The lines that the listing shows for `versions`, given the aliases
    /// that exist.
    pub fn rows(&self, versions: &Vec<Version>, alias_versions: &Vec<AliasVersion>) -> (rows: Vec<
        ListRow,
    >)
        ensures
            rows.deep_view() == rows_of(
                versions.deep_view(),
                alias_versions.deep_view(),
                self.remote,
            ),
    {
        let mut rows: Vec<ListRow> = Vec::new();
        let ghost target = rows_of(versions.deep_view(), alias_versions.deep_view(), self.remote);
        let mut i: usize = 0;
        while i < versions.len()
            invariant
                i <= versions.len(),
                target == rows_of(versions.deep_view(), alias_versions.deep_view(), self.remote),
                rows.deep_view() == target.take(i as int),
            decreases versions.len() - i,
        {
            let ghost before = rows.deep_view();
            let v = &versions[i];
            let found = find_alias_version(alias_versions, v);
            let mut names: Vec<String> = Vec::new();
            let mut k: usize = 0;
            while k < found.len()
                invariant
                    k <= found.len(),
                    names.deep_view() == alias_names(found.deep_view()).take(k as int),
                decreases found.len() - k,
            {
                let ghost had = names.deep_view();
                names.push(found[k].alias_name.clone());
                assert(names.deep_view() =~= had.push(found[k as int]@.alias_name));
                assert(names.deep_view() =~= alias_names(found.deep_view()).take(k + 1));
                k += 1;
            }
            assert(names.deep_view() =~= alias_names(found.deep_view()));
            let provider = if self.remote {
                None
            } else {
                Some(v.provider.as_str())
            };
            let row = ListRow { lts: v.is_lts(), value: v.value.clone(), provider, aliases: names };
            assert(row.deep_view() == target[i as int]);
            rows.push(row);
            assert(rows.deep_view() =~= before.push(target[i as int]));
            assert(rows.deep_view() =~= target.take(i + 1));
            i += 1;
        }
        assert(rows.deep_view() =~= target);
        rows
    }
}

} // verus!
