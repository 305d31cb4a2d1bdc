//! Aliases: names for installed versions, kept as links in the aliases directory.

use vstd::prelude::*;
use crate::commands::list::{
    AliasState, AliasStateView, VersionPath, VersionPathView, find_version, first_with_number,
};
use crate::error::JvcError;
use crate::path::{join, join_path};
use crate::text::{decimal, parse_unsigned, parse_u8, lemma_parse_decimal};
use crate::version::{Version, VersionView};

verus! {

/// The alias command: give the version or alias `to_version` the name `name`.
#[derive(Debug)]
pub struct Alias {
    /// The number of an installed version, or the name of an alias.
    pub to_version: String,
    /// The name that it is given.
    pub name: String,
}

/// One change to the links of the aliases directory.
#[derive(Debug)]
pub enum LinkAction {
    /// Remove the link at `link`.
    Remove { link: String },
    /// Create a link at `link` that leads to `target`.
    Create { link: String, target: String },
    /// Give the link at `from` the path `to`.
    Rename { from: String, to: String },
}

/// What a `LinkAction` holds, as plain values.
pub enum LinkActionView {
    Remove { link: Seq<char> },
    Create { link: Seq<char>, target: Seq<char> },
    Rename { from: Seq<char>, to: Seq<char> },
}

impl DeepView for LinkAction {
    type V = LinkActionView;

    open spec fn deep_view(&self) -> LinkActionView {
        match self {
            LinkAction::Remove { link } => LinkActionView::Remove { link: link@ },
            LinkAction::Create { link, target } => LinkActionView::Create {
                link: link@,
                target: target@,
            },
            LinkAction::Rename { from, to } => LinkActionView::Rename { from: from@, to: to@ },
        }
    }
}

/// What is to be done for an alias.
#[derive(Debug)]
pub struct AliasPlan {
    /// The changes to the links, in the order in which they are made.
    pub actions: Vec<LinkAction>,
    /// The version that the alias is bound to, where it is bound to one.
    pub version: Option<Version>,
}

/// What an `AliasPlan` holds, as plain values.
pub struct AliasPlanView {
    pub actions: Seq<LinkActionView>,
    pub version: Option<VersionView>,
}

impl View for AliasPlan {
    type V = AliasPlanView;

    open spec fn view(&self) -> AliasPlanView {
        AliasPlanView {
            actions: self.actions.deep_view(),
            version: match self.version {
                Some(v) => Some(v@),
                None => None,
            },
        }
    }
}

/// Whether a text reads as a version number: a number from 0 to 255.
pub open spec fn is_version_number(text: Seq<char>) -> bool {
    parse_unsigned(text, 255) is Some
}

/// The plan that gives the link of the alias `selector` the name `name`.
pub open spec fn rebind_plan(aliases_dir: Seq<char>, name: Seq<char>, selector: Seq<char>) -> AliasPlanView {
    AliasPlanView {
        actions: seq![
            LinkActionView::Rename { from: join(aliases_dir, selector), to: join(aliases_dir, name) },
        ],
        version: None,
    }
}

/// The plan that binds the alias `name` to an installed version: a link
/// of that name that is already there is removed first, then a fresh link
/// to the version's directory is created.
pub open spec fn bind_plan(
    aliases_dir: Seq<char>,
    name: Seq<char>,
    target: VersionPathView,
    existing: AliasStateView,
) -> AliasPlanView {
    let link = join(aliases_dir, name);
    AliasPlanView {
        actions: if existing is Absent {
            seq![LinkActionView::Create { link, target: target.path }]
        } else {
            seq![
                LinkActionView::Remove { link },
                LinkActionView::Create { link, target: target.path },
            ]
        },
        version: Some(target.version),
    }
}

/// The plan for giving `selector` the name `name`. A selector that is no
/// version number is the name of an alias, whose link is renamed. A
/// selector that is a version number is sought among the installed
/// versions, and the alias is bound to the first that has the number; where
/// none has it, the plan fails with `VersionNotInstalled`.
pub open spec fn alias_plan(
    name: Seq<char>,
    selector: Seq<char>,
    installed: Seq<Seq<char>>,
    installation_dir: Seq<char>,
    aliases_dir: Seq<char>,
    existing: AliasStateView,
) -> Result<AliasPlanView, JvcError> {
    match parse_unsigned(selector, 255) {
        None => Ok(rebind_plan(aliases_dir, name, selector)),
        Some(n) => match first_with_number(installed, n as u8, installation_dir) {
            Some(found) => Ok(bind_plan(aliases_dir, name, found, existing)),
            None => Err(JvcError::VersionNotInstalled),
        },
    }
}

/// The plan of the alias command: a name that reads as a version number
/// is refused with `InvalidAliasName`, every other name is planned for.
pub open spec fn command_plan(
    name: Seq<char>,
    selector: Seq<char>,
    installed: Seq<Seq<char>>,
    installation_dir: Seq<char>,
    aliases_dir: Seq<char>,
    existing: AliasStateView,
) -> Result<AliasPlanView, JvcError> {
    if is_version_number(name) {
        Err(JvcError::InvalidAliasName)
    } else {
        alias_plan(name, selector, installed, installation_dir, aliases_dir, existing)
    }
}

/// The view of a result that holds a plan.
pub open spec fn plan_result(r: Result<AliasPlan, JvcError>) -> Result<AliasPlanView, JvcError> {
    match r {
        Ok(p) => Ok(p@),
        Err(e) => Err(e),
    }
}

/// Whether the alias command refuses `name`, whatever it is to stand for.
pub open spec fn command_plan_refuses(name: Seq<char>) -> bool {
    forall|
        selector: Seq<char>,
        installed: Seq<Seq<char>>,
        installation_dir: Seq<char>,
        aliases_dir: Seq<char>,
        existing: AliasStateView,
    |
        #[trigger] command_plan(name, selector, installed, installation_dir, aliases_dir, existing)
            == Err::<AliasPlanView, JvcError>(JvcError::InvalidAliasName)
}

/// The numeral of every number from 0 to 255 reads as a version number,
/// and so is no name for an alias.
pub proof fn lemma_numerals_are_version_numbers(n: nat)
    requires
        n <= 255,
    ensures
        is_version_number(decimal(n)),
        command_plan_refuses(decimal(n)),
{
    lemma_parse_decimal(n, 255);
}

/// The links of the aliases directory: the target of each link, by the link's path.
pub type Links = Map<Seq<char>, Seq<char>>;

/// The links after one change. Removing a link that is not there changes
/// nothing; so does creating a link where one is, and renaming a link that
/// is not there. A renamed link takes the place of a link at its new path.
pub open spec fn perform(action: LinkActionView, links: Links) -> Links {
    match action {
        LinkActionView::Remove { link } => links.remove(link),
        LinkActionView::Create { link, target } => if links.dom().contains(link) {
            links
        } else {
            links.insert(link, target)
        },
        LinkActionView::Rename { from, to } => if links.dom().contains(from) {
            links.remove(from).insert(to, links[from])
        } else {
            links
        },
    }
}

/// The links after a sequence of changes.
pub open spec fn run(actions: Seq<LinkActionView>, links: Links) -> Links
    decreases actions.len(),
{
    if actions.len() == 0 {
        links
    } else {
        run(actions.drop_first(), perform(actions[0], links))
    }
}

/// Whether `existing` tells rightly if `links` holds a link at `link`.
pub open spec fn observed(existing: AliasStateView, links: Links, link: Seq<char>) -> bool {
    (existing is Absent) == !links.dom().contains(link)
}

/// Binding an alias leaves exactly the link of the alias changed: it now
/// leads to the version's directory, whether or not the alias was there
/// before, and every other link is as it was.
pub proof fn lemma_bind_sets_one_link(
    aliases_dir: Seq<char>,
    name: Seq<char>,
    target: VersionPathView,
    existing: AliasStateView,
    links: Links,
)
    requires
        observed(existing, links, join(aliases_dir, name)),
    ensures
        run(bind_plan(aliases_dir, name, target, existing).actions, links) == links.insert(
            join(aliases_dir, name),
            target.path,
        ),
{
    let link = join(aliases_dir, name);
    let actions = bind_plan(aliases_dir, name, target, existing).actions;
    let create = LinkActionView::Create { link, target: target.path };
    reveal_with_fuel(run, 3);
    if existing is Absent {
        assert(actions[0] == create);
        assert(actions.drop_first() =~= Seq::<LinkActionView>::empty());
        assert(run(actions, links) == perform(create, links));
    } else {
        let removed = links.remove(link);
        assert(actions[0] == LinkActionView::Remove { link });
        assert(actions.drop_first() =~= seq![create]);
        assert(actions.drop_first()[0] == create);
        assert(actions.drop_first().drop_first() =~= Seq::<LinkActionView>::empty());
        assert(run(actions.drop_first(), removed) == perform(create, removed));
        assert(run(actions, links) == perform(create, removed));
        assert(removed.insert(link, target.path) =~= links.insert(link, target.path));
    }
}

/// Binding an alias that is absent, and then binding it again to another
/// version, leaves one link for the alias, which leads to the second
/// version's directory; nothing of the first binding is left.
pub proof fn lemma_bind_twice(
    aliases_dir: Seq<char>,
    name: Seq<char>,
    first: VersionPathView,
    second: VersionPathView,
    links: Links,
)
    requires
        !links.dom().contains(join(aliases_dir, name)),
    ensures
        run(
            bind_plan(aliases_dir, name, second, AliasStateView::ValidLink(first.path)).actions,
            run(bind_plan(aliases_dir, name, first, AliasStateView::Absent).actions, links),
        ) == links.insert(join(aliases_dir, name), second.path),
{
    let link = join(aliases_dir, name);
    lemma_bind_sets_one_link(aliases_dir, name, first, AliasStateView::Absent, links);
    let after = links.insert(link, first.path);
    lemma_bind_sets_one_link(aliases_dir, name, second, AliasStateView::ValidLink(first.path), after);
    assert(after.insert(link, second.path) =~= links.insert(link, second.path));
}

/// Refuses an alias name that reads as a version number, so that no alias
/// hides a version.
pub fn validate_alias_name(alias_name: &str) -> (r: Result<(), JvcError>)
    ensures
        r == if is_version_number(alias_name@) {
            Err::<(), JvcError>(JvcError::InvalidAliasName)
        } else {
            Ok::<(), JvcError>(())
        },
{
    if parse_u8(alias_name).is_some() {
        Err(JvcError::InvalidAliasName)
    } else {
        Ok(())
    }
}

/// Whether a selector names an alias: it does unless it reads as a version number.
pub fn is_alias(version: &str) -> (alias: bool)
    ensures
        alias == !is_version_number(version@),
{
    parse_u8(version).is_none()
}

/// The plan that gives the link of the alias `to_version` the name `name`.
pub fn override_alias(name: &str, to_version: &str, aliases_dir: &str) -> (plan: AliasPlan)
    ensures
        plan@ == rebind_plan(aliases_dir@, name@, to_version@),
{
    let actual_alias_dir = join_path(aliases_dir, to_version);
    let required_alias_dir = join_path(aliases_dir, name);
    let mut actions: Vec<LinkAction> = Vec::new();
    actions.push(LinkAction::Rename { from: actual_alias_dir, to: required_alias_dir });
    assert(actions.deep_view() =~= rebind_plan(aliases_dir@, name@, to_version@).actions);
    AliasPlan { actions, version: None }
}

/// The plan that binds the alias `name` to the installed version
/// `applicable_version`, where `existing` tells what is at the alias's
/// path now.
pub fn apply_alias(
    aliases_dir: &str,
    name: &str,
    applicable_version: VersionPath,
    existing: &AliasState,
) -> (plan: AliasPlan)
    ensures
        plan@ == bind_plan(aliases_dir@, name@, applicable_version@, existing@),
{
    let ghost target = bind_plan(aliases_dir@, name@, applicable_version@, existing@);
    let mut actions: Vec<LinkAction> = Vec::new();
    match existing {
        AliasState::Absent => {},
        _ => {
            actions.push(LinkAction::Remove { link: join_path(aliases_dir, name) });
        },
    }
    let ghost before = actions.deep_view();
    let VersionPath { path, version } = applicable_version;
    actions.push(LinkAction::Create { link: join_path(aliases_dir, name), target: path });
    assert(actions.deep_view() =~= before.push(
        LinkActionView::Create { link: join(aliases_dir@, name@), target: path@ },
    ));
    assert(actions.deep_view() =~= target.actions);
    AliasPlan { actions, version: Some(version) }
}

/// The plan for giving `to_version` the name `name`, where `installed`
/// are the names of the installed versions and `existing` tells what is at
/// the alias's path now.
pub fn create_alias(
    name: &str,
    to_version: &str,
    installed: &Vec<String>,
    installation_dir: &str,
    aliases_dir: &str,
    existing: &AliasState,
) -> (r: Result<AliasPlan, JvcError>)
    ensures
        plan_result(r) == alias_plan(
            name@,
            to_version@,
            installed.deep_view(),
            installation_dir@,
            aliases_dir@,
            existing@,
        ),
{
    match parse_u8(to_version) {
        None => Ok(override_alias(name, to_version, aliases_dir)),
        Some(version) => match find_version(version, installed, installation_dir) {
            Some(applicable_version) => Ok(
                apply_alias(aliases_dir, name, applicable_version, existing),
            ),
            None => Err(JvcError::VersionNotInstalled),
        },
    }
}

impl Alias {
    /// The plan of the command: the name is validated, then planned for.
    pub fn plan(
        &self,
        installed: &Vec<String>,
        installation_dir: &str,
        aliases_dir: &str,
        existing: &AliasState,
    ) -> (r: Result<AliasPlan, JvcError>)
        ensures
            plan_result(r) == command_plan(
                self.name@,
                self.to_version@,
                installed.deep_view(),
                installation_dir@,
                aliases_dir@,
                existing@,
            ),
    {
        match validate_alias_name(self.name.as_str()) {
            Ok(()) => create_alias(
                self.name.as_str(),
                self.to_version.as_str(),
                installed,
                installation_dir,
                aliases_dir,
                existing,
            ),
            Err(e) => Err(e),
        }
    }
}

} // verus!
