//! The version ledger: which archives of a manifest an installation still
//! needs, in the order in which they are applied.

use vstd::prelude::*;
use crate::version::{numeric_order, order_antisymmetric, order_transitive, parsed, Version, VersionOrder};

verus! {

/// A manifest as the update service sends it: the latest version, the least
/// version that can still be updated, and the archive path of each version,
/// all as text. The service sends the paths as a map, so a manifest lists no
/// key twice (`keys_distinct`); the needed archives are defined for any list.
#[derive(Clone, Debug, PartialEq, Eq)]
pub struct UpdateInfo {
    pub latest: String,
    pub least: String,
    pub updates: Vec<(String, String)>,
}

impl UpdateInfo {
    /// No version text is listed twice: each key of the manifest has one
    /// archive.
    pub open spec fn keys_distinct(&self) -> bool {
        forall|i: int, j: int|
            0 <= i < j < self.updates.len() ==> (#[trigger] self.updates[i]).0@
                != (#[trigger] self.updates[j]).0@
    }
}

/// One archive of a manifest with the version that it brings.
#[derive(Debug)]
pub struct Release {
    pub version: Version,
    pub archive: String,
}

/// What a release is in contracts.
pub struct ReleaseView {
    pub version: Seq<int>,
    pub archive: Seq<char>,
}

impl View for Release {
    type V = ReleaseView;

    open spec fn view(&self) -> ReleaseView {
        ReleaseView { version: self.version@, archive: self.archive@ }
    }
}

/// A manifest whose versions have been read.
#[derive(Debug)]
pub struct UpdateManifest {
    pub latest: Version,
    pub least_supported: Version,
    pub updates: Vec<Release>,
}

/// What a manifest is in contracts.
pub struct ManifestView {
    pub latest: Seq<int>,
    pub least_supported: Seq<int>,
    pub updates: Seq<ReleaseView>,
}

impl View for UpdateManifest {
    type V = ManifestView;

    open spec fn view(&self) -> ManifestView {
        ManifestView {
            latest: self.latest@,
            least_supported: self.least_supported@,
            updates: release_views(self.updates@),
        }
    }
}

/// Why no list of needed archives can be given.
#[derive(Debug)]
pub enum VersionError {
    /// The installed version, then the least version that can be updated,
    /// which is above it.
    Unsupported(Version, Version),
    /// The installed version, then the latest version, which is below it.
    VersionInFuture(Version, Version),
    /// A version of the manifest cannot be read.
    ManifestCorrupt,
}

/// Where an installation stands against a manifest.
#[derive(Clone, Copy, Debug, PartialEq, Eq, Structural)]
pub enum Standing {
    /// Below the least version that can be updated.
    Unsupported,
    /// At the latest version.
    Current,
    /// Above the latest version.
    Ahead,
    /// Anywhere else, or not installed at all.
    Behind,
}

/// Where an installation at `local` stands against `least` and `latest`.
pub open spec fn standing(local: Option<Seq<int>>, latest: Seq<int>, least: Seq<int>) -> Standing {
    match local {
        None => Standing::Behind,
        Some(v) => if numeric_order(v, least) == VersionOrder::Less {
            Standing::Unsupported
        } else if numeric_order(v, latest) == VersionOrder::Equal {
            Standing::Current
        } else if numeric_order(v, latest) == VersionOrder::Greater {
            Standing::Ahead
        } else {
            Standing::Behind
        },
    }
}

/// A release is newer than `local` if its version is above it, and in any
/// case where nothing is installed.
pub open spec fn is_newer(release: ReleaseView, local: Option<Seq<int>>) -> bool {
    local is None || numeric_order(local->0, release.version) == VersionOrder::Less
}

/// The test of being newer than `local`.
pub open spec fn newer_than(local: Option<Seq<int>>) -> spec_fn(ReleaseView) -> bool {
    |r: ReleaseView| is_newer(r, local)
}

/// The releases that are newer than `local`, in the order of `releases`.
pub open spec fn newer(releases: Seq<ReleaseView>, local: Option<Seq<int>>) -> Seq<ReleaseView> {
    releases.filter(newer_than(local))
}

/// `sorted` with `release` put behind every release whose version is not
/// above its own.
pub open spec fn placed(sorted: Seq<ReleaseView>, release: ReleaseView) -> Seq<ReleaseView>
    decreases sorted.len(),
{
    if sorted.len() > 0 && numeric_order(sorted.last().version, release.version)
        == VersionOrder::Greater {
        placed(sorted.drop_last(), release).push(sorted.last())
    } else {
        sorted.push(release)
    }
}

/// The releases in ascending order of version; releases of equal version
/// keep the order in which they were listed.
pub open spec fn ascending(releases: Seq<ReleaseView>) -> Seq<ReleaseView>
    decreases releases.len(),
{
    if releases.len() == 0 {
        Seq::empty()
    } else {
        placed(ascending(releases.drop_last()), releases.last())
    }
}

/// The archive paths of releases, in their order.
pub open spec fn archives(releases: Seq<ReleaseView>) -> Seq<Seq<char>> {
    releases.map_values(|r: ReleaseView| r.archive)
}

/// The archives that an installation at `local` still needs, in the order in
/// which they are applied.
pub open spec fn needed(local: Option<Seq<int>>, releases: Seq<ReleaseView>) -> Seq<Seq<char>> {
    archives(ascending(newer(releases, local)))
}

/// Every pair of a sequence of releases is in order: the earlier version is
/// not above the later.
pub open spec fn is_ascending(releases: Seq<ReleaseView>) -> bool {
    forall|i: int, j: int|
        0 <= i < j < releases.len() ==> numeric_order(
            #[trigger] releases[i].version,
            #[trigger] releases[j].version,
        ) != VersionOrder::Greater
}

/// Every pair of a sequence of releases is strictly in order.
pub open spec fn is_strictly_ascending(releases: Seq<ReleaseView>) -> bool {
    forall|i: int, j: int|
        0 <= i < j < releases.len() ==> numeric_order(
            #[trigger] releases[i].version,
            #[trigger] releases[j].version,
        ) == VersionOrder::Less
}

/// No two releases of a sequence have versions of equal order.
pub open spec fn versions_distinct(releases: Seq<ReleaseView>) -> bool {
    forall|i: int, j: int|
        0 <= i < j < releases.len() ==> numeric_order(
            #[trigger] releases[i].version,
            #[trigger] releases[j].version,
        ) != VersionOrder::Equal
}

/// Where `release` comes to stand in `sorted`: `at` is a position from which
/// on every version is above that of `release`, and the version before it,
/// if there is one, is not. There is one such position only.
pub proof fn placed_at(sorted: Seq<ReleaseView>, release: ReleaseView, at: int)
    requires
        0 <= at <= sorted.len(),
        forall|k: int|
            at <= k < sorted.len() ==> numeric_order(
                (#[trigger] sorted[k]).version,
                release.version,
            ) == VersionOrder::Greater,
        at > 0 ==> numeric_order(sorted[at - 1].version, release.version)
            != VersionOrder::Greater,
    ensures
        placed(sorted, release) == sorted.insert(at, release),
{
    let found = placement(sorted, release);
    if found < at {
        assert(numeric_order(sorted[at - 1].version, release.version) == VersionOrder::Greater);
    } else if at < found {
        assert(numeric_order(sorted[found - 1].version, release.version)
            == VersionOrder::Greater);
    }
}

/// The views of releases, in their order.
pub open spec fn release_views(releases: Seq<Release>) -> Seq<ReleaseView> {
    releases.map_values(|r: Release| r@)
}

/// The view of an installed version, if there is one.
pub open spec fn local_view(local: Option<&Version>) -> Option<Seq<int>> {
    match local {
        Some(v) => Some(v@),
        None => None,
    }
}

/// `result` is the plan owed to an installation at `local`: no release where
/// it is at the latest version; the newer releases, in the order in which
/// they are applied, where it is behind or absent; and the error that names
/// both versions where it is below the least or above the latest.
pub open spec fn plans(
    result: Result<Vec<Release>, VersionError>,
    local: Option<Seq<int>>,
    manifest: ManifestView,
) -> bool {
    match standing(local, manifest.latest, manifest.least_supported) {
        Standing::Unsupported => result matches Err(VersionError::Unsupported(v, floor)) && v@
            == local->0 && floor@ == manifest.least_supported,
        Standing::Current => result matches Ok(list) && list@.len() == 0,
        Standing::Ahead => result matches Err(VersionError::VersionInFuture(v, top)) && v@
            == local->0 && top@ == manifest.latest,
        Standing::Behind => result matches Ok(list) && release_views(list@) == ascending(
            newer(manifest.updates, local),
        ),
    }
}

/// `result` is the answer owed to an installation at `local`: as the plan,
/// with the archive of each release in place of the release.
pub open spec fn answers(
    result: Result<Vec<String>, VersionError>,
    local: Option<Seq<int>>,
    manifest: ManifestView,
) -> bool {
    match standing(local, manifest.latest, manifest.least_supported) {
        Standing::Unsupported => result matches Err(VersionError::Unsupported(v, floor)) && v@
            == local->0 && floor@ == manifest.least_supported,
        Standing::Current => result matches Ok(list) && list@.len() == 0,
        Standing::Ahead => result matches Err(VersionError::VersionInFuture(v, top)) && v@
            == local->0 && top@ == manifest.latest,
        Standing::Behind => result matches Ok(list) && list.deep_view() == needed(
            local,
            manifest.updates,
        ),
    }
}

/// The release that one entry of a manifest stands for, if its version can
/// be read.
pub open spec fn parsed_release(entry: (String, String)) -> Option<ReleaseView> {
    match parsed(entry.0@) {
        Some(version) => Some(ReleaseView { version, archive: entry.1@ }),
        None => None,
    }
}

/// The releases that the entries of a manifest stand for, if every version
/// among them can be read.
pub open spec fn parsed_releases(updates: Seq<(String, String)>) -> Option<Seq<ReleaseView>> {
    if forall|i: int| 0 <= i < updates.len() ==> parsed_release(#[trigger] updates[i]) is Some {
        Some(Seq::new(updates.len(), |i: int| parsed_release(updates[i])->0))
    } else {
        None
    }
}

/// The manifest that the text of one stands for, if every version in it can
/// be read.
pub open spec fn parsed_manifest(info: UpdateInfo) -> Option<ManifestView> {
    match (parsed(info.latest@), parsed(info.least@), parsed_releases(info.updates@)) {
        (Some(latest), Some(least_supported), Some(updates)) => Some(
            ManifestView { latest, least_supported, updates },
        ),
        _ => None,
    }
}

/// Puts `release` into `sorted`, behind every release whose version is not
/// above its own.
fn place(sorted: &mut Vec<Release>, release: Release)
    ensures
        release_views(final(sorted)@) == placed(release_views(old(sorted)@), release@),
{
    let mut at: usize = sorted.len();
    while at > 0 && sorted[at - 1].version.compare(&release.version) == VersionOrder::Greater
        invariant
            at <= sorted.len(),
            forall|k: int|
                at <= k < sorted.len() ==> numeric_order(
                    (#[trigger] sorted[k]).version@,
                    release.version@,
                ) == VersionOrder::Greater,
        decreases at,
    {
        at -= 1;
    }
    proof {
        let views = release_views(sorted@);
        assert forall|k: int| at <= k < views.len() implies numeric_order(
            (#[trigger] views[k]).version,
            release@.version,
        ) == VersionOrder::Greater by {
            assert(views[k] == sorted[k]@);
        }
        placed_at(views, release@, at as int);
    }
    let ghost inserted = release_views(sorted@).insert(at as int, release@);
    sorted.insert(at, release);
    assert(release_views(sorted@) =~= inserted);
}

/// Where an installation at `local` stands against `latest` and `least`.
pub fn standing_of(local: Option<&Version>, latest: &Version, least: &Version) -> (position:
    Standing)
    ensures
        position == standing(local_view(local), latest@, least@),
{
    match local {
        None => Standing::Behind,
        Some(v) => if v.compare(least) == VersionOrder::Less {
            Standing::Unsupported
        } else {
            match v.compare(latest) {
                VersionOrder::Equal => Standing::Current,
                VersionOrder::Greater => Standing::Ahead,
                VersionOrder::Less => Standing::Behind,
            }
        },
    }
}

/// The releases that an installation at `local` still needs from a
/// manifest, in the order in which they are applied, or the reason why it
/// cannot be updated.
pub fn needed_releases(local: Option<&Version>, manifest: &UpdateManifest) -> (result: Result<
    Vec<Release>,
    VersionError,
>)
    ensures
        plans(result, local_view(local), manifest@),
{
    match standing_of(local, &manifest.latest, &manifest.least_supported) {
        Standing::Unsupported => {
            return Err(
                VersionError::Unsupported(
                    local.unwrap().clone(),
                    manifest.least_supported.clone(),
                ),
            );
        },
        Standing::Current => {
            return Ok(Vec::new());
        },
        Standing::Ahead => {
            return Err(
                VersionError::VersionInFuture(local.unwrap().clone(), manifest.latest.clone()),
            );
        },
        Standing::Behind => {},
    }
    let releases = &manifest.updates;
    let ghost views = release_views(releases@);
    let ghost lv = local_view(local);
    let mut sorted: Vec<Release> = Vec::new();
    let mut i: usize = 0;
    assert(views.take(0) =~= Seq::<ReleaseView>::empty());
    assert(newer(Seq::<ReleaseView>::empty(), lv) =~= Seq::<ReleaseView>::empty()) by {
        reveal(Seq::filter);
    }
    while i < releases.len()
        invariant
            i <= releases.len(),
            views == release_views(releases@),
            lv == local_view(local),
            release_views(sorted@) == ascending(newer(views.take(i as int), lv)),
        decreases releases.len() - i,
    {
        let release = &releases[i];
        let wanted = match local {
            None => true,
            Some(v) => v.compare(&release.version) == VersionOrder::Less,
        };
        proof {
            assert(views.take(i + 1) =~= views.take(i as int).push(release@));
            views.take(i as int).lemma_filter_push(release@, newer_than(lv));
            assert(wanted == is_newer(release@, lv));
        }
        if wanted {
            let ghost kept = newer(views.take(i as int), lv);
            place(
                &mut sorted,
                Release { version: release.version.clone(), archive: release.archive.clone() },
            );
            assert(kept.push(release@).drop_last() =~= kept);
        }
        i += 1;
    }
    assert(views.take(i as int) =~= views);
    Ok(sorted)
}

/// The archives that an installation at `local` still needs from a
/// manifest, in the order in which they are applied, or the reason why it
/// cannot be updated.
pub fn needed_archives(local: Option<&Version>, manifest: &UpdateManifest) -> (result: Result<
    Vec<String>,
    VersionError,
>)
    ensures
        answers(result, local_view(local), manifest@),
{
    match needed_releases(local, manifest) {
        Err(error) => Err(error),
        Ok(sorted) => {
            let mut list: Vec<String> = Vec::new();
            let mut k: usize = 0;
            while k < sorted.len()
                invariant
                    k <= sorted.len(),
                    list.len() == k,
                    forall|j: int| 0 <= j < k ==> (#[trigger] list[j])@ == sorted[j].archive@,
                decreases sorted.len() - k,
            {
                list.push(sorted[k].archive.clone());
                k += 1;
            }
            assert(list.deep_view() =~= archives(release_views(sorted@)));
            Ok(list)
        },
    }
}

/// Every release has a place: a position from which on every version of
/// `sorted` is above its own, while the version before it is not.
pub proof fn placement(sorted: Seq<ReleaseView>, release: ReleaseView) -> (at: int)
    ensures
        0 <= at <= sorted.len(),
        placed(sorted, release) == sorted.insert(at, release),
        forall|k: int|
            at <= k < sorted.len() ==> numeric_order(
                (#[trigger] sorted[k]).version,
                release.version,
            ) == VersionOrder::Greater,
        at > 0 ==> numeric_order(sorted[at - 1].version, release.version)
            != VersionOrder::Greater,
    decreases sorted.len(),
{
    if sorted.len() > 0 && numeric_order(sorted.last().version, release.version)
        == VersionOrder::Greater {
        let front = sorted.drop_last();
        let at = placement(front, release);
        assert(front.insert(at, release).push(sorted.last()) =~= sorted.insert(at, release));
        assert forall|k: int| at <= k < sorted.len() implies numeric_order(
            (#[trigger] sorted[k]).version,
            release.version,
        ) == VersionOrder::Greater by {
            if k < front.len() {
                assert(front[k] == sorted[k]);
            }
        }
        if at > 0 {
            assert(front[at - 1] == sorted[at - 1]);
        }
        at
    } else {
        assert(sorted.insert(sorted.len() as int, release) =~= sorted.push(release));
        sorted.len() as int
    }
}

/// Placing a release into releases that are in order leaves them in order.
pub proof fn placed_keeps_order(sorted: Seq<ReleaseView>, release: ReleaseView)
    requires
        is_ascending(sorted),
    ensures
        is_ascending(placed(sorted, release)),
{
    let at = placement(sorted, release);
    let out = sorted.insert(at, release);
    assert forall|i: int, j: int| 0 <= i < j < out.len() implies numeric_order(
        #[trigger] out[i].version,
        #[trigger] out[j].version,
    ) != VersionOrder::Greater by {
        if j < at {
            assert(out[i] == sorted[i] && out[j] == sorted[j]);
        } else if j == at {
            assert(out[i] == sorted[i]);
            if i < at - 1 {
                order_transitive(sorted[i].version, sorted[at - 1].version, release.version);
            }
        } else if i == at {
            assert(out[j] == sorted[j - 1]);
            order_antisymmetric(sorted[j - 1].version, release.version);
        } else if i < at {
            assert(out[i] == sorted[i] && out[j] == sorted[j - 1]);
        } else {
            assert(out[i] == sorted[i - 1] && out[j] == sorted[j - 1]);
        }
    }
}

/// Placing a release into releases that are strictly in order leaves them
/// strictly in order, if none of them has a version equal to its own.
pub proof fn placed_keeps_strict_order(sorted: Seq<ReleaseView>, release: ReleaseView)
    requires
        is_strictly_ascending(sorted),
        forall|i: int|
            0 <= i < sorted.len() ==> numeric_order(
                (#[trigger] sorted[i]).version,
                release.version,
            ) != VersionOrder::Equal,
    ensures
        is_strictly_ascending(placed(sorted, release)),
{
    placed_keeps_order(sorted, release);
    let at = placement(sorted, release);
    let out = placed(sorted, release);
    assert forall|i: int, j: int| 0 <= i < j < out.len() implies numeric_order(
        #[trigger] out[i].version,
        #[trigger] out[j].version,
    ) != VersionOrder::Equal by {
        let before = if i < at {
            i
        } else {
            i - 1
        };
        let behind = if j < at {
            j
        } else {
            j - 1
        };
        if j == at {
            assert(out[i] == sorted[before]);
        } else if i == at {
            assert(out[j] == sorted[behind]);
            order_antisymmetric(sorted[behind].version, release.version);
        } else {
            assert(out[i] == sorted[before] && out[j] == sorted[behind]);
        }
    }
}

/// Ordering releases neither loses nor adds one: each stands in the result
/// as often as it was listed.
pub proof fn ascending_is_permutation(releases: Seq<ReleaseView>)
    ensures
        ascending(releases).to_multiset() == releases.to_multiset(),
    decreases releases.len(),
{
    if releases.len() > 0 {
        let front = releases.drop_last();
        ascending_is_permutation(front);
        let at = placement(ascending(front), releases.last());
        vstd::seq_lib::to_multiset_insert(ascending(front), at, releases.last());
        vstd::seq_lib::to_multiset_build(front, releases.last());
        assert(front.push(releases.last()) =~= releases);
    } else {
        assert(releases =~= Seq::<ReleaseView>::empty());
    }
}

/// Ordered releases are in order: no version is above a later one.
pub proof fn ascending_is_sorted(releases: Seq<ReleaseView>)
    ensures
        is_ascending(ascending(releases)),
    decreases releases.len(),
{
    if releases.len() > 0 {
        ascending_is_sorted(releases.drop_last());
        placed_keeps_order(ascending(releases.drop_last()), releases.last());
    }
}

/// Ordered releases are strictly in order where no two of them have versions
/// of equal order.
pub proof fn ascending_is_strict(releases: Seq<ReleaseView>)
    requires
        versions_distinct(releases),
    ensures
        is_strictly_ascending(ascending(releases)),
    decreases releases.len(),
{
    if releases.len() > 0 {
        let front = releases.drop_last();
        let last = releases.last();
        assert forall|i: int, j: int| 0 <= i < j < front.len() implies numeric_order(
            #[trigger] front[i].version,
            #[trigger] front[j].version,
        ) != VersionOrder::Equal by {
            assert(front[i] == releases[i] && front[j] == releases[j]);
        }
        ascending_is_strict(front);
        ascending_is_permutation(front);
        let sorted = ascending(front);
        assert forall|i: int| 0 <= i < sorted.len() implies numeric_order(
            (#[trigger] sorted[i]).version,
            last.version,
        ) != VersionOrder::Equal by {
            vstd::seq_lib::to_multiset_contains(sorted, sorted[i]);
            vstd::seq_lib::to_multiset_contains(front, sorted[i]);
            assert(sorted.contains(sorted[i]));
            let k = choose|k: int| 0 <= k < front.len() && front[k] == sorted[i];
            assert(releases[k] == front[k]);
            assert(releases[releases.len() - 1] == last);
        }
        placed_keeps_strict_order(sorted, last);
    }
}

/// Leaving releases out keeps the rest distinct in version.
pub proof fn newer_are_distinct(releases: Seq<ReleaseView>, local: Option<Seq<int>>)
    requires
        versions_distinct(releases),
    ensures
        versions_distinct(newer(releases, local)),
    decreases releases.len(),
{
    reveal(Seq::filter);
    if releases.len() > 0 {
        let front = releases.drop_last();
        let last = releases.last();
        assert forall|i: int, j: int| 0 <= i < j < front.len() implies numeric_order(
            #[trigger] front[i].version,
            #[trigger] front[j].version,
        ) != VersionOrder::Equal by {
            assert(front[i] == releases[i] && front[j] == releases[j]);
        }
        newer_are_distinct(front, local);
        let kept = newer(front, local);
        if is_newer(last, local) {
            let out = kept.push(last);
            assert(newer(releases, local) == out);
            assert forall|i: int, j: int| 0 <= i < j < out.len() implies numeric_order(
                #[trigger] out[i].version,
                #[trigger] out[j].version,
            ) != VersionOrder::Equal by {
                if j < kept.len() {
                    assert(out[i] == kept[i] && out[j] == kept[j]);
                } else {
                    assert(out[i] == kept[i]);
                    assert(kept.contains(kept[i]));
                    front.lemma_filter_contains_rev(newer_than(local), kept[i]);
                    let k = choose|k: int| 0 <= k < front.len() && front[k] == kept[i];
                    assert(releases[k] == front[k]);
                    assert(releases[releases.len() - 1] == last);
                }
            }
        } else {
            assert(newer(releases, local) == kept);
        }
    }
}

/// The needed archives are those of the newer releases, applied in ascending
/// order of version: strictly ascending where no two releases of the manifest
/// have versions of equal order.
pub proof fn needed_is_ascending(local: Option<Seq<int>>, releases: Seq<ReleaseView>)
    ensures
        needed(local, releases) == archives(ascending(newer(releases, local))),
        ascending(newer(releases, local)).to_multiset() == newer(releases, local).to_multiset(),
        is_ascending(ascending(newer(releases, local))),
        versions_distinct(releases) ==> is_strictly_ascending(ascending(newer(releases, local))),
{
    ascending_is_permutation(newer(releases, local));
    ascending_is_sorted(newer(releases, local));
    if versions_distinct(releases) {
        newer_are_distinct(releases, local);
        ascending_is_strict(newer(releases, local));
    }
}

/// Leaving elements out of a sequence leaves them out of what it holds, and
/// nothing else.
proof fn filter_keeps_multiset(s: Seq<ReleaseView>, keep: spec_fn(ReleaseView) -> bool)
    ensures
        s.filter(keep).to_multiset() == s.to_multiset().filter(keep),
    decreases s.len(),
{
    broadcast use vstd::multiset::group_multiset_axioms;

    reveal(Seq::filter);
    if s.len() == 0 {
        s.to_multiset_ensures();
        assert(s.to_multiset() =~= s.to_multiset().filter(keep));
    } else {
        let front = s.drop_last();
        let last = s.last();
        filter_keeps_multiset(front, keep);
        assert(front.push(last) =~= s);
        vstd::seq_lib::to_multiset_build(front, last);
        if keep(last) {
            vstd::seq_lib::to_multiset_build(front.filter(keep), last);
            assert(front.to_multiset().filter(keep).insert(last) =~= front.to_multiset().insert(
                last,
            ).filter(keep));
        } else {
            assert(front.to_multiset().filter(keep) =~= front.to_multiset().insert(last).filter(
                keep,
            ));
        }
    }
}

/// Releases that are strictly in order are in the only order that they can
/// be in: two such sequences of the same releases are equal.
pub proof fn strict_order_is_unique(a: Seq<ReleaseView>, b: Seq<ReleaseView>)
    requires
        is_strictly_ascending(a),
        is_strictly_ascending(b),
        a.to_multiset() == b.to_multiset(),
    ensures
        a == b,
    decreases a.len(),
{
    vstd::seq_lib::to_multiset_len(a);
    vstd::seq_lib::to_multiset_len(b);
    if a.len() == 0 {
        assert(a =~= b);
    } else {
        let n = a.len() as int;
        let la = a[n - 1];
        let lb = b[n - 1];
        if la != lb {
            vstd::seq_lib::to_multiset_contains(a, la);
            vstd::seq_lib::to_multiset_contains(b, la);
            vstd::seq_lib::to_multiset_contains(a, lb);
            vstd::seq_lib::to_multiset_contains(b, lb);
            assert(a.contains(la));
            assert(b.contains(lb));
            let j = choose|j: int| 0 <= j < b.len() && b[j] == la;
            let i = choose|i: int| 0 <= i < a.len() && a[i] == lb;
            assert(numeric_order(b[j].version, b[n - 1].version) == VersionOrder::Less);
            assert(numeric_order(a[i].version, a[n - 1].version) == VersionOrder::Less);
            order_antisymmetric(la.version, lb.version);
        }
        vstd::seq_lib::to_multiset_remove(a, n - 1);
        vstd::seq_lib::to_multiset_remove(b, n - 1);
        assert(a.remove(n - 1) =~= a.drop_last());
        assert(b.remove(n - 1) =~= b.drop_last());
        assert forall|i: int, j: int| 0 <= i < j < a.drop_last().len() implies numeric_order(
            #[trigger] a.drop_last()[i].version,
            #[trigger] a.drop_last()[j].version,
        ) == VersionOrder::Less by {
            assert(a.drop_last()[i] == a[i] && a.drop_last()[j] == a[j]);
        }
        assert forall|i: int, j: int| 0 <= i < j < b.drop_last().len() implies numeric_order(
            #[trigger] b.drop_last()[i].version,
            #[trigger] b.drop_last()[j].version,
        ) == VersionOrder::Less by {
            assert(b.drop_last()[i] == b[i] && b.drop_last()[j] == b[j]);
        }
        strict_order_is_unique(a.drop_last(), b.drop_last());
        assert(a =~= a.drop_last().push(la));
        assert(b =~= b.drop_last().push(lb));
    }
}

/// The needed archives do not depend on the order in which a manifest lists
/// its releases: two listings of the same releases, no two of them equal in
/// version, give the same archives in the same order.
pub proof fn needed_ignores_listing_order(
    local: Option<Seq<int>>,
    first: Seq<ReleaseView>,
    second: Seq<ReleaseView>,
)
    requires
        first.to_multiset() == second.to_multiset(),
        versions_distinct(first),
        versions_distinct(second),
    ensures
        needed(local, first) == needed(local, second),
{
    filter_keeps_multiset(first, newer_than(local));
    filter_keeps_multiset(second, newer_than(local));
    needed_is_ascending(local, first);
    needed_is_ascending(local, second);
    strict_order_is_unique(ascending(newer(first, local)), ascending(newer(second, local)));
}

/// Releases that are distinct in version were listed under distinct keys. The
/// converse does not hold: two keys may write one version, as `1.0` and
/// `1.0.0` do.
pub proof fn distinct_versions_have_distinct_keys(info: UpdateInfo)
    requires
        parsed_releases(info.updates@) is Some,
        versions_distinct(parsed_releases(info.updates@)->0),
    ensures
        info.keys_distinct(),
{
    let releases = parsed_releases(info.updates@)->0;
    assert forall|i: int, j: int| 0 <= i < j < info.updates.len() implies (#[trigger] info.updates[i]).0@
        != (#[trigger] info.updates[j]).0@ by {
        if info.updates[i].0@ == info.updates[j].0@ {
            assert(releases[i].version == releases[j].version);
            crate::version::order_reflexive(releases[i].version);
        }
    }
}

/// Reads the versions of a manifest; `None` where one of them cannot be
/// read.
pub fn read_manifest(info: &UpdateInfo) -> (manifest: Option<UpdateManifest>)
    ensures
        match manifest {
            Some(m) => parsed_manifest(*info) == Some(m@),
            None => parsed_manifest(*info) is None,
        },
{
    let latest = match Version::parse(info.latest.as_str()) {
        Some(v) => v,
        None => {
            return None;
        },
    };
    let least_supported = match Version::parse(info.least.as_str()) {
        Some(v) => v,
        None => {
            return None;
        },
    };
    let mut updates: Vec<Release> = Vec::new();
    let mut i: usize = 0;
    while i < info.updates.len()
        invariant
            i <= info.updates.len(),
            updates.len() == i,
            forall|j: int|
                0 <= j < i ==> parsed_release(#[trigger] info.updates[j]) == Some(updates[j]@),
        decreases info.updates.len() - i,
    {
        let entry = &info.updates[i];
        match Version::parse(entry.0.as_str()) {
            Some(version) => {
                updates.push(Release { version, archive: entry.1.clone() });
            },
            None => {
                assert(parsed_release(info.updates@[i as int]) is None);
                return None;
            },
        }
        i += 1;
    }
    assert(release_views(updates@) =~= parsed_releases(info.updates@)->0);
    Some(UpdateManifest { latest, least_supported, updates })
}

/// The archives that an installation at `local` still needs from a manifest,
/// in the order in which they are applied. A manifest with a version that
/// cannot be read is corrupt, whatever else it holds.
pub fn compute_needed(local: Option<&Version>, info: &UpdateInfo) -> (result: Result<
    Vec<String>,
    VersionError,
>)
    ensures
        match parsed_manifest(*info) {
            Some(manifest) => answers(result, local_view(local), manifest),
            None => result matches Err(VersionError::ManifestCorrupt),
        },
{
    match read_manifest(info) {
        Some(manifest) => needed_archives(local, &manifest),
        None => Err(VersionError::ManifestCorrupt),
    }
}

} // verus!
