//! The client of the Azul service. A listing takes two answers: all bundles
//! that match, and those among them that are flagged long-term support.
//! Without the second answer the listing still stands, with no version flagged.

use vstd::prelude::*;
use std::collections::HashSet;
use crate::client::adoptopenjdk_client::{download_path, or_default, text_or};
use crate::client::package_client::{
    DownloadResponse, DownloadResponseView, DownloadState, DownloadStateView, DownloadStep,
    DownloadStepView, ListState, ListStateView, ListStep, ListStepView, Listing, ListingView,
    PackageClient, Reply, ReplyView, Request, RequestView, Shape, misfit, misfit_of,
};
use crate::config::{ClientConfig, ClientConfigView, RequirementsView, VersionRequirements};
use crate::error::JvcError;
use crate::path::join_path;
use crate::provider::{Provider, provider_base_url};
use crate::version::{Version, VersionView, numbered};

verus! {

/// The client of the Azul service.
#[derive(Debug)]
pub struct AzulClient;

/// The details of one package, as the service gives them for the newest
/// bundle of a version.
#[derive(Debug)]
pub struct AzulPackageDetails {
    /// The address of the artifact.
    pub url: String,
    /// The name of the package.
    pub name: String,
    /// The size of the artifact in bytes.
    pub size: u32,
}

/// What an `AzulPackageDetails` holds, as plain values.
pub struct PackageDetailsView {
    pub url: Seq<char>,
    pub name: Seq<char>,
    pub size: u32,
}

impl View for AzulPackageDetails {
    type V = PackageDetailsView;

    open spec fn view(&self) -> PackageDetailsView {
        PackageDetailsView { url: self.url@, name: self.name@, size: self.size }
    }
}

/// One bundle of a listing.
#[derive(Debug)]
pub struct AzulPackage {
    /// The number of the bundle at the service.
    pub id: u32,
    /// The name of the package.
    pub name: String,
    /// The address of the artifact.
    pub url: String,
    /// The version of the runtime, major number first.
    pub jdk_version: Vec<u32>,
    /// The version of the vendor's distribution.
    pub zulu_version: Vec<u32>,
}

impl DeepView for AzulPackage {
    type V = Seq<u32>;

    /// What the client reads of a bundle: the version of the runtime.
    open spec fn deep_view(&self) -> Seq<u32> {
        self.jdk_version@
    }
}

/// Whether every bundle has a version with a major number.
pub open spec fn well_formed(bundles: Seq<Seq<u32>>) -> bool {
    forall|i: int| 0 <= i < bundles.len() ==> (#[trigger] bundles[i]).len() > 0
}

/// The major numbers of the bundles: the first number of each version.
pub open spec fn leading(bundles: Seq<Seq<u32>>) -> Set<u32> {
    Set::new(|n: u32| exists|i: int| 0 <= i < bundles.len() && #[trigger] first_is(bundles[i], n))
}

/// Whether `version` begins with `n`.
pub open spec fn first_is(version: Seq<u32>, n: u32) -> bool {
    version.len() > 0 && version[0] == n
}

/// Whether each number of `s` is below the next.
pub open spec fn ascending(s: Seq<u32>) -> bool {
    forall|i: int, j: int| 0 <= i < j < s.len() ==> s[i] < s[j]
}

/// The members of a finite set from the least to the greatest.
pub open spec fn sorted_members(set: Set<u32>) -> Seq<u32> {
    choose|s: Seq<u32>| ascending(s) && s.to_set() == set
}

/// The versions of the given major numbers, from the least to the greatest,
/// each flagged where its number is among the long-term-support ones. Where
/// those are not known, no version is flagged.
pub open spec fn combined(majors: Set<u32>, lts: Option<Set<u32>>) -> Seq<VersionView> {
    let numbers = sorted_members(majors);
    Seq::new(
        numbers.len(),
        |i: int|
            numbered(
                numbers[i] as nat,
                lts matches Some(flagged) && flagged.contains(numbers[i]),
                Provider::Azul,
            ),
    )
}

/// The view of an optional set of numbers.
pub open spec fn opt_set(s: Option<HashSet<u32>>) -> Option<Set<u32>> {
    match s {
        Some(set) => Some(set@),
        None => None,
    }
}

/// The address that answers with all bundles that meet `requirements`.
pub open spec fn all_version_url(base: Seq<char>, requirements: RequirementsView) -> Seq<char> {
    base + "/bundles/?os="@ + text_or(requirements.os, ""@) + "&arch="@ + text_or(
        requirements.arch,
        "x86"@,
    ) + "&ext=zip&bundle_type="@ + text_or(requirements.image_type, "jdk"@) + "&release_status="@
        + text_or(requirements.release_type, "ga"@)
}

/// The address that answers with the long-term-support bundles among those of `bundles_url`.
pub open spec fn lts_url(bundles_url: Seq<char>) -> Seq<char> {
    bundles_url + "&support_term=lts"@
}

/// The address that answers with the details of the newest bundle of
/// `version` that meets `requirements`.
pub open spec fn details_url(base: Seq<char>, version: Seq<char>, requirements: RequirementsView) -> Seq<
    char,
> {
    base + "/bundles/latest/?jdk_version="@ + version + "&os="@ + text_or(requirements.os, ""@)
        + "&arch="@ + text_or(requirements.arch, "x86"@) + "&ext=zip&bundle_type="@ + text_or(
        requirements.image_type,
        "jdk"@,
    ) + "&release_status="@ + text_or(requirements.release_type, "ga"@)
}

/// The long-term-support numbers that a reply gives: those of a
/// well-formed list of bundles. Any other reply gives none.
pub open spec fn lts_of(reply: ReplyView) -> Option<Set<u32>> {
    match reply {
        ReplyView::Bundles(bundles) => if well_formed(bundles) {
            Some(leading(bundles))
        } else {
            None
        },
        _ => None,
    }
}

/// The first step of a listing: ask for all bundles that match.
pub open spec fn azul_listing_start(base: Seq<char>, requirements: RequirementsView) -> ListStepView {
    ListStepView::Ask {
        request: RequestView::Get { url: all_version_url(base, requirements), shape: Shape::Bundles },
        state: ListStateView::AwaitBundles { lts_url: lts_url(all_version_url(base, requirements)) },
    }
}

/// The step after a reply to a listing. All bundles must come as a
/// well-formed list; then the long-term-support bundles are asked for.
/// Whatever comes back for those ends the listing: it holds every major
/// number of all bundles, and flags those that the reply names, or none
/// where the reply is no well-formed list of bundles.
pub open spec fn azul_listing_next(state: ListStateView, reply: ReplyView) -> ListStepView {
    match state {
        ListStateView::AwaitBundles { lts_url } => match reply {
            ReplyView::Bundles(all) => if well_formed(all) {
                ListStepView::Ask {
                    request: RequestView::Get { url: lts_url, shape: Shape::Bundles },
                    state: ListStateView::AwaitLtsBundles { all },
                }
            } else {
                ListStepView::Failed(JvcError::SchemaError)
            },
            _ => ListStepView::Failed(misfit(reply)),
        },
        ListStateView::AwaitLtsBundles { all } => if well_formed(all) {
            ListStepView::Done(
                ListingView {
                    versions: combined(leading(all), lts_of(reply)),
                    degraded: lts_of(reply) is None,
                },
            )
        } else {
            ListStepView::Failed(JvcError::SchemaError)
        },
        ListStateView::AwaitReleases => ListStepView::Failed(misfit(reply)),
    }
}

/// The first step of a download: ask for the details of the newest bundle.
pub open spec fn azul_fetch_start(config: ClientConfigView) -> DownloadStepView {
    DownloadStepView::Ask {
        request: RequestView::Get {
            url: details_url(config.base_url, config.version.value, config.requirements),
            shape: Shape::Details,
        },
        state: DownloadStateView::AwaitDetails,
    }
}

/// The step after a reply to a download: the details name the artifact,
/// which is then stored; the stored body ends the download.
pub open spec fn azul_fetch_next(config: ClientConfigView, state: DownloadStateView, reply: ReplyView) -> DownloadStepView {
    match (state, reply) {
        (DownloadStateView::AwaitDetails, ReplyView::Details(details)) => DownloadStepView::Ask {
            request: RequestView::Store {
                url: details.url,
                path: download_path(config),
                total_size: details.size,
            },
            state: DownloadStateView::AwaitBody { package_name: details.name },
        },
        (DownloadStateView::AwaitBody { package_name }, ReplyView::Stored) => DownloadStepView::Done(
            DownloadResponseView { download_path: download_path(config), package_name },
        ),
        _ => DownloadStepView::Failed(misfit(reply)),
    }
}

/// Two ascending sequences with the same members are the same sequence.
pub proof fn lemma_ascending_unique(a: Seq<u32>, b: Seq<u32>)
    requires
        ascending(a),
        ascending(b),
        a.to_set() == b.to_set(),
    ensures
        a == b,
    decreases a.len(),
{
    if a.len() == 0 {
        if b.len() > 0 {
            assert(b.to_set().contains(b[0]));
            assert(a.contains(b[0]));
        }
        assert(a =~= b);
    } else {
        assert(a.to_set().contains(a.last()));
        assert(b.contains(a.last()));
        assert(b.len() > 0);
        assert(b.to_set().contains(b.last()));
        assert(a.contains(b.last()));
        let ja = choose|j: int| 0 <= j < a.len() && a[j] == b.last();
        let jb = choose|j: int| 0 <= j < b.len() && b[j] == a.last();
        assert(a.last() == b.last());
        let a0 = a.drop_last();
        let b0 = b.drop_last();
        assert forall|e: u32| a0.to_set().contains(e) <==> b0.to_set().contains(e) by {
            if a0.contains(e) {
                let i = choose|i: int| 0 <= i < a0.len() && a0[i] == e;
                assert(a[i] == e);
                assert(a.to_set().contains(e));
                assert(b.contains(e));
                let k = choose|k: int| 0 <= k < b.len() && b[k] == e;
                assert(b0[k] == e);
            }
            if b0.contains(e) {
                let i = choose|i: int| 0 <= i < b0.len() && b0[i] == e;
                assert(b[i] == e);
                assert(b.to_set().contains(e));
                assert(a.contains(e));
                let k = choose|k: int| 0 <= k < a.len() && a[k] == e;
                assert(a0[k] == e);
            }
        }
        assert(a0.to_set() =~= b0.to_set());
        lemma_ascending_unique(a0, b0);
        assert(a =~= a0.push(a.last()));
        assert(b =~= b0.push(b.last()));
    }
}

/// Where `x` goes in an ascending sequence: behind the numbers below it.
pub open spec fn rank(s: Seq<u32>, x: u32) -> int
    decreases s.len(),
{
    if s.len() == 0 {
        0
    } else if s.last() < x {
        s.len() as int
    } else {
        rank(s.drop_last(), x)
    }
}

/// Putting a new number at its rank keeps a sequence ascending and adds
/// the number to its members.
pub proof fn lemma_insert_at_rank(s: Seq<u32>, x: u32)
    requires
        ascending(s),
        !s.contains(x),
    ensures
        0 <= rank(s, x) <= s.len(),
        forall|i: int| 0 <= i < rank(s, x) ==> s[i] < x,
        forall|i: int| rank(s, x) <= i < s.len() ==> x < s[i],
        ascending(s.insert(rank(s, x), x)),
        s.insert(rank(s, x), x).to_set() == s.to_set().insert(x),
    decreases s.len(),
{
    let p = rank(s, x);
    if s.len() == 0 {
    } else if s.last() < x {
        assert forall|i: int| 0 <= i < p implies s[i] < x by {
            if i < s.len() - 1 {
                assert(s[i] < s[s.len() - 1]);
            }
        }
    } else {
        assert(s.last() != x) by {
            assert(s.contains(s.last()));
        }
        let s0 = s.drop_last();
        assert(!s0.contains(x)) by {
            if s0.contains(x) {
                let i = choose|i: int| 0 <= i < s0.len() && s0[i] == x;
                assert(s[i] == x);
            }
        }
        lemma_insert_at_rank(s0, x);
        assert forall|i: int| 0 <= i < p implies s[i] < x by {
            assert(s0[i] == s[i]);
        }
        assert forall|i: int| p <= i < s.len() implies x < s[i] by {
            if i < s0.len() {
                assert(s0[i] == s[i]);
            }
        }
    }
    lemma_insert_keeps_order(s, p, x);
}

/// Putting a new number between the numbers below it and the numbers above
/// it keeps a sequence ascending and adds the number to its members.
pub proof fn lemma_insert_keeps_order(s: Seq<u32>, p: int, x: u32)
    requires
        ascending(s),
        0 <= p <= s.len(),
        forall|i: int| 0 <= i < p ==> s[i] < x,
        forall|i: int| p <= i < s.len() ==> x < s[i],
    ensures
        ascending(s.insert(p, x)),
        s.insert(p, x).to_set() == s.to_set().insert(x),
{
    let t = s.insert(p, x);
    assert forall|i: int, j: int| 0 <= i < j < t.len() implies t[i] < t[j] by {
        if i < p && j > p {
            assert(t[i] == s[i] && t[j] == s[j - 1]);
        }
    }
    assert forall|e: u32| t.to_set().contains(e) <==> s.to_set().insert(x).contains(e) by {
        if t.contains(e) {
            let j = choose|j: int| 0 <= j < t.len() && t[j] == e;
            if j < p {
                assert(s[j] == e);
            } else if j > p {
                assert(s[j - 1] == e);
            }
        }
        if s.contains(e) {
            let j = choose|j: int| 0 <= j < s.len() && s[j] == e;
            if j < p {
                assert(t[j] == e);
            } else {
                assert(t[j + 1] == e);
            }
        }
        if e == x {
            assert(t[p] == x);
        }
    }
    assert(t.to_set() =~= s.to_set().insert(x));
}

/// The members of a finite set can be put in ascending order, and
/// `sorted_members` is that order.
pub proof fn lemma_sorted_members(set: Set<u32>)
    requires
        set.finite(),
    ensures
        ascending(sorted_members(set)),
        sorted_members(set).to_set() == set,
        sorted_members(set).len() == set.len(),
    decreases set.len(),
{
    if set.len() == 0 {
        let s = Seq::<u32>::empty();
        assert(set =~= Set::<u32>::empty());
        assert(s.to_set() =~= set);
        assert(ascending(s) && s.to_set() == set);
    } else {
        let x = set.choose();
        let rest = set.remove(x);
        lemma_sorted_members(rest);
        let r = sorted_members(rest);
        assert(!r.contains(x)) by {
            if r.contains(x) {
                assert(r.to_set().contains(x));
            }
        }
        lemma_insert_at_rank(r, x);
        let s = r.insert(rank(r, x), x);
        assert(rest.insert(x) =~= set);
        assert(ascending(s) && s.to_set() == set);
    }
    let s = sorted_members(set);
    s.unique_seq_to_set();
}

/// A listing made without long-term-support numbers flags no version, and
/// holds one version for each major number.
pub proof fn lemma_combined_without_lts(majors: Set<u32>)
    requires
        majors.finite(),
    ensures
        combined(majors, None).len() == majors.len(),
        forall|i: int| 0 <= i < combined(majors, None).len() ==> !(#[trigger] combined(majors, None)[i]).lts,
        forall|n: u32|
            majors.contains(n) ==> exists|i: int|
                0 <= i < combined(majors, None).len() && #[trigger] combined(majors, None)[i]
                    == numbered(n as nat, false, Provider::Azul),
{
    lemma_sorted_members(majors);
    let numbers = sorted_members(majors);
    assert forall|n: u32| majors.contains(n) implies exists|i: int|
        0 <= i < combined(majors, None).len() && #[trigger] combined(majors, None)[i] == numbered(
            n as nat,
            false,
            Provider::Azul,
        ) by {
        assert(numbers.to_set().contains(n));
        let i = choose|i: int| 0 <= i < numbers.len() && numbers[i] == n;
        assert(combined(majors, None)[i] == numbered(n as nat, false, Provider::Azul));
    }
}

/// The major numbers of a list of bundles are finitely many.
pub proof fn lemma_leading_finite(bundles: Seq<Seq<u32>>)
    ensures
        leading(bundles).finite(),
    decreases bundles.len(),
{
    if bundles.len() == 0 {
        assert(leading(bundles) =~= Set::<u32>::empty());
    } else {
        let init = bundles.drop_last();
        lemma_leading_finite(init);
        let last = bundles.last();
        let grown = if last.len() > 0 {
            leading(init).insert(last[0])
        } else {
            leading(init)
        };
        assert forall|n: u32| leading(bundles).contains(n) <==> grown.contains(n) by {
            if leading(bundles).contains(n) {
                let i = choose|i: int| 0 <= i < bundles.len() && #[trigger] first_is(bundles[i], n);
                if i < init.len() {
                    assert(first_is(init[i], n));
                }
            }
            if leading(init).contains(n) {
                let i = choose|i: int| 0 <= i < init.len() && #[trigger] first_is(init[i], n);
                assert(first_is(bundles[i], n));
            }
            if last.len() > 0 && n == last[0] {
                assert(first_is(bundles[bundles.len() - 1], n));
            }
        }
        assert(leading(bundles) =~= grown);
    }
}

/// Where the request for the long-term-support bundles fails, the listing
/// still ends well: it holds every major number of all bundles, flags none
/// of them, and is marked as degraded.
pub proof fn lemma_failed_lts_request_degrades(all: Seq<Seq<u32>>, e: JvcError)
    requires
        well_formed(all),
    ensures
        azul_listing_next(ListStateView::AwaitLtsBundles { all }, ReplyView::Failed(e))
            == ListStepView::Done(
            ListingView { versions: combined(leading(all), None), degraded: true },
        ),
        combined(leading(all), None).len() == leading(all).len(),
        forall|i: int|
            0 <= i < combined(leading(all), None).len() ==> !(#[trigger] combined(
                leading(all),
                None,
            )[i]).lts,
        forall|n: u32|
            leading(all).contains(n) ==> exists|i: int|
                0 <= i < combined(leading(all), None).len() && #[trigger] combined(
                    leading(all),
                    None,
                )[i] == numbered(n as nat, false, Provider::Azul),
{
    lemma_leading_finite(all);
    lemma_combined_without_lts(leading(all));
}

impl AzulClient {
    /// The client of the Azul service.
    pub fn new() -> (client: Self)
        ensures
            client.base_url() == provider_base_url(Provider::Azul),
    {
        AzulClient {  }
    }
}

/// The members of `set`, each once, in the order in which the set hands them out.
pub fn members(set: &HashSet<u32>) -> (v: Vec<u32>)
    ensures
        v@.no_duplicates(),
        v@.to_set() == set@,
{
    broadcast use vstd::std_specs::hash::group_hash_axioms;

    let mut v: Vec<u32> = Vec::new();
    for x in it: set.iter()
        invariant
            v@ == it.seq().unref().take(it.index() as int),
            it.seq().unref().to_set() == set@,
            it.seq().unref().no_duplicates(),
            it.index() == it.seq().len() ==> v@ == it.seq().unref(),
    {
        v.push(*x);
        assert(v@ =~= it.seq().unref().take(it.index() + 1));
        assert(it.index() + 1 == it.seq().len() ==> v@ =~= it.seq().unref());
    }
    v
}

/// The members of `set` from the least to the greatest.
pub fn sorted_members_of(set: &HashSet<u32>) -> (v: Vec<u32>)
    ensures
        v@ == sorted_members(set@),
        ascending(v@),
        v@.to_set() == set@,
{
    let all = members(set);
    let mut v: Vec<u32> = Vec::new();
    let mut i: usize = 0;
    assert(v@.to_set() =~= all@.take(0).to_set());
    while i < all.len()
        invariant
            i <= all.len(),
            all@.no_duplicates(),
            ascending(v@),
            v@.to_set() == all@.take(i as int).to_set(),
        decreases all.len() - i,
    {
        let x = all[i];
        let ghost before = v@;
        assert(!before.contains(x)) by {
            if before.contains(x) {
                assert(before.to_set().contains(x));
                assert(all@.take(i as int).contains(x));
                let j = choose|j: int| 0 <= j < i && all@.take(i as int)[j] == x;
                assert(all@[j] == all@[i as int]);
            }
        }
        let mut p: usize = v.len();
        assert(before.take(p as int) =~= before);
        while p > 0 && v[p - 1] > x
            invariant
                p <= v.len(),
                v@ == before,
                rank(before, x) == rank(before.take(p as int), x),
            decreases p,
        {
            assert(before.take(p as int).drop_last() =~= before.take(p - 1));
            p -= 1;
        }
        proof {
            lemma_insert_at_rank(before, x);
            if p > 0 {
                assert(before[p - 1] != x) by {
                    assert(before.contains(before[p - 1]));
                }
                assert(before.take(p as int).last() == before[p - 1]);
            }
            assert(rank(before, x) == p);
        }
        v.insert(p, x);
        proof {
            assert(all@.take(i + 1) =~= all@.take(i as int).push(x));
            assert(all@.take(i + 1).to_set() =~= all@.take(i as int).to_set().insert(x)) by {
                let t = all@.take(i as int);
                assert forall|e: u32| t.push(x).to_set().contains(e) <==> t.to_set().insert(
                    x,
                ).contains(e) by {
                    if t.push(x).contains(e) {
                        let j = choose|j: int| 0 <= j < t.push(x).len() && t.push(x)[j] == e;
                        if j < t.len() {
                            assert(t[j] == e);
                        }
                    }
                    if t.contains(e) {
                        let j = choose|j: int| 0 <= j < t.len() && t[j] == e;
                        assert(t.push(x)[j] == e);
                    }
                    if e == x {
                        assert(t.push(x)[t.len() as int] == x);
                    }
                }
            }
        }
        i += 1;
    }
    proof {
        assert(all@.take(i as int) =~= all@);
        let chosen = sorted_members(set@);
        assert(ascending(v@) && v@.to_set() == set@);
        lemma_ascending_unique(v@, chosen);
    }
    v
}

/// The major numbers of `bundles`, if every bundle has one.
pub fn major_releases(bundles: &Vec<AzulPackage>) -> (majors: Option<HashSet<u32>>)
    ensures
        majors is Some == well_formed(bundles.deep_view()),
        majors matches Some(set) ==> set@ == leading(bundles.deep_view()),
{
    broadcast use vstd::std_specs::hash::group_hash_axioms;

    let mut set: HashSet<u32> = HashSet::new();
    let mut i: usize = 0;
    let ghost all = bundles.deep_view();
    assert(set@ =~= leading(all.take(0)));
    while i < bundles.len()
        invariant
            i <= bundles.len(),
            all == bundles.deep_view(),
            well_formed(all.take(i as int)),
            set@ == leading(all.take(i as int)),
        decreases bundles.len() - i,
    {
        assert(all[i as int] == bundles[i as int].jdk_version@);
        if bundles[i].jdk_version.len() == 0 {
            return None;
        }
        let n = bundles[i].jdk_version[0];
        set.insert(n);
        proof {
            let before = all.take(i as int);
            let now = all.take(i + 1);
            assert(now =~= before.push(all[i as int]));
            assert forall|e: u32| leading(now).contains(e) <==> leading(before).insert(n).contains(
                e,
            ) by {
                if leading(now).contains(e) {
                    let j = choose|j: int| 0 <= j < now.len() && #[trigger] first_is(now[j], e);
                    if j < before.len() {
                        assert(first_is(before[j], e));
                    }
                }
                if leading(before).contains(e) {
                    let j = choose|j: int|
                        0 <= j < before.len() && #[trigger] first_is(before[j], e);
                    assert(first_is(now[j], e));
                }
                if e == n {
                    assert(first_is(now[i as int], e));
                }
            }
            assert(leading(now) =~= leading(before).insert(n));
        }
        i += 1;
    }
    assert(all.take(i as int) =~= all);
    Some(set)
}

/// The versions of the given major numbers, from the least to the greatest,
/// each flagged where its number is among `lts_major_releases`.
pub fn combine_versions_info(
    major_versions: HashSet<u32>,
    lts_major_releases: Option<HashSet<u32>>,
) -> (versions: Vec<Version>)
    ensures
        versions.deep_view() == combined(major_versions@, opt_set(lts_major_releases)),
{
    broadcast use vstd::std_specs::hash::group_hash_axioms;

    let numbers = sorted_members_of(&major_versions);
    let ghost target = combined(major_versions@, opt_set(lts_major_releases));
    let mut versions: Vec<Version> = Vec::new();
    let mut i: usize = 0;
    while i < numbers.len()
        invariant
            i <= numbers.len(),
            numbers@ == sorted_members(major_versions@),
            target == combined(major_versions@, opt_set(lts_major_releases)),
            versions.deep_view() == target.take(i as int),
        decreases numbers.len() - i,
    {
        let ghost before = versions.deep_view();
        let n = numbers[i];
        let lts = match &lts_major_releases {
            Some(flagged) => flagged.contains(&n),
            None => false,
        };
        versions.push(Version::new(n, lts, Provider::Azul));
        assert(versions.deep_view() =~= before.push(target[i as int]));
        assert(versions.deep_view() =~= target.take(i + 1));
        i += 1;
    }
    assert(versions.deep_view() =~= target);
    versions
}

/// The address that answers with the details of the newest bundle of
/// `version` that meets `requirements`.
pub fn compose_details_url(base_url: &str, version: &str, requirements: VersionRequirements) -> (url:
    String)
    ensures
        url@ == details_url(base_url@, version@, requirements@),
{
    base_url.to_owned().concat("/bundles/latest/?jdk_version=").concat(version).concat("&os=").concat(
        or_default(&requirements.os, "").as_str(),
    ).concat("&arch=").concat(or_default(&requirements.arch, "x86").as_str()).concat(
        "&ext=zip&bundle_type=",
    ).concat(or_default(&requirements.image_type, "jdk").as_str()).concat("&release_status=").concat(
        or_default(&requirements.release_type, "ga").as_str(),
    )
}

/// The address that answers with all bundles that meet `requirements`.
pub fn compose_all_version_url(base_url: &str, requirements: VersionRequirements) -> (url: String)
    ensures
        url@ == all_version_url(base_url@, requirements@),
{
    base_url.to_owned().concat("/bundles/?os=").concat(
        or_default(&requirements.os, "").as_str(),
    ).concat("&arch=").concat(or_default(&requirements.arch, "x86").as_str()).concat(
        "&ext=zip&bundle_type=",
    ).concat(or_default(&requirements.image_type, "jdk").as_str()).concat("&release_status=").concat(
        or_default(&requirements.release_type, "ga").as_str(),
    )
}

/// The address that answers with the long-term-support bundles among those of `bundles_url`.
pub fn get_lts_releases(bundles_url: &str) -> (url: String)
    ensures
        url@ == lts_url(bundles_url@),
{
    bundles_url.to_owned().concat("&support_term=lts")
}

impl PackageClient for AzulClient {
    open spec fn base_url(&self) -> Seq<char> {
        provider_base_url(Provider::Azul)
    }

    open spec fn listing_start(&self, requirements: RequirementsView) -> ListStepView {
        azul_listing_start(self.base_url(), requirements)
    }

    open spec fn listing_next(&self, state: ListStateView, reply: ReplyView) -> ListStepView {
        azul_listing_next(state, reply)
    }

    open spec fn fetch_start(&self, config: ClientConfigView) -> DownloadStepView {
        azul_fetch_start(config)
    }

    open spec fn fetch_next(
        &self,
        config: ClientConfigView,
        state: DownloadStateView,
        reply: ReplyView,
    ) -> DownloadStepView {
        azul_fetch_next(config, state, reply)
    }

    fn get_base_url(&self) -> (url: String) {
        Provider::Azul.base_url()
    }

    fn get_all_version(&self, requirements: VersionRequirements) -> (step: ListStep) {
        let url = compose_all_version_url(self.get_base_url().as_str(), requirements);
        let lts_url = get_lts_releases(url.as_str());
        ListStep::Ask {
            request: Request::Get { url, shape: Shape::Bundles },
            state: ListState::AwaitBundles { lts_url },
        }
    }

    fn get_all_version_next(&self, state: ListState, reply: Reply) -> (step: ListStep) {
        match state {
            ListState::AwaitBundles { lts_url } => match reply {
                Reply::Bundles(all) => match major_releases(&all) {
                    Some(_) => ListStep::Ask {
                        request: Request::Get { url: lts_url, shape: Shape::Bundles },
                        state: ListState::AwaitLtsBundles { all },
                    },
                    None => ListStep::Failed(JvcError::SchemaError),
                },
                reply => ListStep::Failed(misfit_of(&reply)),
            },
            ListState::AwaitLtsBundles { all } => match major_releases(&all) {
                Some(majors) => {
                    let lts = match &reply {
                        Reply::Bundles(bundles) => major_releases(bundles),
                        _ => None,
                    };
                    let degraded = lts.is_none();
                    let versions = combine_versions_info(majors, lts);
                    ListStep::Done(Listing { versions, degraded })
                },
                None => ListStep::Failed(JvcError::SchemaError),
            },
            ListState::AwaitReleases => ListStep::Failed(misfit_of(&reply)),
        }
    }

    fn download(&self, client_config: &ClientConfig) -> (step: DownloadStep) {
        let url = compose_details_url(
            client_config.base_url.as_str(),
            client_config.version.value.as_str(),
            client_config.requirements.clone(),
        );
        DownloadStep::Ask {
            request: Request::Get { url, shape: Shape::Details },
            state: DownloadState::AwaitDetails,
        }
    }

    fn download_next(&self, client_config: &ClientConfig, state: DownloadState, reply: Reply) -> (step:
        DownloadStep) {
        match (state, reply) {
            (DownloadState::AwaitDetails, Reply::Details(details)) => {
                let path = join_path(
                    client_config.download_dir.as_str(),
                    client_config.version.value.as_str(),
                );
                DownloadStep::Ask {
                    request: Request::Store { url: details.url, path, total_size: details.size },
                    state: DownloadState::AwaitBody { package_name: details.name },
                }
            },
            (DownloadState::AwaitBody { package_name }, Reply::Stored) => {
                let download_path = join_path(
                    client_config.download_dir.as_str(),
                    client_config.version.value.as_str(),
                );
                DownloadStep::Done(DownloadResponse { download_path, package_name })
            },
            (_, reply) => DownloadStep::Failed(misfit_of(&reply)),
        }
    }
}

} // verus!
