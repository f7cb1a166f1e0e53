//! Duplicate suppression: a store of recently seen fingerprints, each kept
//! for a time to live. Two requests with the same fingerprint within that
//! time are one logical event: the second is acknowledged, not forwarded.
//!
//! One store is kept per telemetry format, since volume and retention differ.

use crate::telemetry::TelemetryFormat;
use vstd::prelude::*;

verus! {

/// The key that a telemetry record is remembered by: its fingerprint.
pub type DedupKey = u64;

/// A fingerprint, the time at which it was marked and the time to live that
/// it was marked with.
#[derive(Clone, Copy, Debug)]
struct Marker {
    key: DedupKey,
    marked_at: u64,
    ttl: u64,
}

impl Marker {
    /// The time at which the marker stops counting.
    spec fn expires_at(self) -> nat {
        (self.marked_at + self.ttl) as nat
    }

    /// Whether the marker still counts at time `now`.
    fn live_at(&self, now: u64) -> (r: bool)
        ensures
            r == (now < self.expires_at()),
    {
        now < self.marked_at || now - self.marked_at < self.ttl
    }
}

/// Store of the fingerprints seen within their time to live.
#[derive(Debug)]
pub struct DedupCache {
    markers: Vec<Marker>,
}

/// No fingerprint has two markers.
spec fn distinct_keys(s: Seq<Marker>) -> bool {
    forall|i: int, j: int| 0 <= i < j < s.len() ==> s[i].key != s[j].key
}

/// Whether `s` holds a marker for `key`.
spec fn has_key(s: Seq<Marker>, key: u64) -> bool {
    exists|i: int| 0 <= i < s.len() && #[trigger] s[i].key == key
}

/// The place of the marker for `key`.
spec fn index_of(s: Seq<Marker>, key: u64) -> int {
    choose|i: int| 0 <= i < s.len() && #[trigger] s[i].key == key
}

/// The markers as a map from fingerprint to expiry time.
spec fn markers_map(s: Seq<Marker>) -> Map<u64, nat> {
    Map::new(|key: u64| has_key(s, key), |key: u64| s[index_of(s, key)].expires_at())
}

/// Whether `key` counts as seen at time `now`.
pub open spec fn is_live(m: Map<u64, nat>, key: u64, now: u64) -> bool {
    m.contains_key(key) && now < m[key]
}

/// The time at which a fingerprint marked at `now` with `ttl` expires.
pub open spec fn expiry(now: u64, ttl: u64) -> nat {
    (now + ttl) as nat
}

/// The store after `key` was looked up at `now`: a live marker is left as it
/// is (its time to live is not extended); otherwise the key is marked anew.
pub open spec fn mark_spec(m: Map<u64, nat>, key: u64, ttl: u64, now: u64) -> Map<u64, nat> {
    if is_live(m, key, now) {
        m
    } else {
        m.insert(key, expiry(now, ttl))
    }
}

/// The store without the markers that have expired at `now`.
pub open spec fn purge_spec(m: Map<u64, nat>, now: u64) -> Map<u64, nat> {
    Map::new(|key: u64| is_live(m, key, now), |key: u64| m[key])
}

proof fn lemma_marker_at(s: Seq<Marker>, i: int)
    requires
        distinct_keys(s),
        0 <= i < s.len(),
    ensures
        has_key(s, s[i].key),
        index_of(s, s[i].key) == i,
        markers_map(s).contains_key(s[i].key),
        markers_map(s)[s[i].key] == s[i].expires_at(),
{
    assert(s[i].key == s[i].key);
    let j = index_of(s, s[i].key);
    assert(0 <= j < s.len() && s[j].key == s[i].key);
    if j != i {
        if j < i {
            assert(s[j].key != s[i].key);
        } else {
            assert(s[i].key != s[j].key);
        }
    }
}

impl View for DedupCache {
    type V = Map<u64, nat>;

    closed spec fn view(&self) -> Map<u64, nat> {
        markers_map(self.markers@)
    }
}

impl DedupCache {
    #[verifier::type_invariant]
    spec fn wf(&self) -> bool {
        distinct_keys(self.markers@)
    }

    /// An empty store.
    pub fn new() -> (r: Self)
        ensures
            r@ == Map::<u64, nat>::empty(),
    {
        let r = DedupCache { markers: Vec::new() };
        assert(r@ =~= Map::<u64, nat>::empty());
        r
    }

    /// The place of the marker for `key`, if there is one.
    fn find(&self, key: u64) -> (r: Option<usize>)
        ensures
            match r {
                Some(i) => i < self.markers@.len() && self.markers@[i as int].key == key,
                None => !has_key(self.markers@, key),
            },
    {
        let mut i: usize = 0;
        while i < self.markers.len()
            invariant
                i <= self.markers@.len(),
                forall|j: int| 0 <= j < i ==> self.markers@[j].key != key,
            decreases self.markers@.len() - i,
        {
            if self.markers[i].key == key {
                return Some(i);
            }
            i += 1;
        }
        None
    }

    /// Whether `key` counts as seen at time `now`. The store is not changed.
    pub fn contains(&self, key: DedupKey, now: u64) -> (r: bool)
        ensures
            r == is_live(self@, key, now),
    {
        proof {
            use_type_invariant(self);
        }
        match self.find(key) {
            Some(i) => {
                proof {
                    lemma_marker_at(self.markers@, i as int);
                }
                self.markers[i].live_at(now)
            },
            None => false,
        }
    }

    /// Checks whether `key` is seen and marks it if it is not, in one step.
    /// Returns `false` on a first sighting, which marks the key for `ttl`
    /// from `now`; `true` on a duplicate, whose marker is left as it is.
    pub fn seen_or_mark(&mut self, key: DedupKey, ttl: u64, now: u64) -> (r: bool)
        ensures
            r == is_live(old(self)@, key, now),
            final(self)@ == mark_spec(old(self)@, key, ttl, now),
    {
        proof {
            use_type_invariant(&*self);
        }
        let found = self.find(key);
        let mut markers = Vec::new();
        std::mem::swap(&mut self.markers, &mut markers);
        let ghost before = markers@;
        let r = match found {
            Some(i) => {
                proof {
                    lemma_marker_at(before, i as int);
                }
                if markers[i].live_at(now) {
                    true
                } else {
                    markers.set(i, Marker { key, marked_at: now, ttl });
                    proof {
                        lemma_replace_marker(before, i as int, now, ttl);
                    }
                    false
                }
            },
            None => {
                markers.push(Marker { key, marked_at: now, ttl });
                proof {
                    lemma_add_marker(before, Marker { key, marked_at: now, ttl });
                }
                false
            },
        };
        self.markers = markers;
        r
    }

    /// Drops the markers that have expired at `now`.
    pub fn purge(&mut self, now: u64)
        ensures
            final(self)@ == purge_spec(old(self)@, now),
    {
        proof {
            use_type_invariant(&*self);
        }
        let mut markers = Vec::new();
        std::mem::swap(&mut self.markers, &mut markers);
        let mut kept: Vec<Marker> = Vec::new();
        let mut i: usize = 0;
        proof {
            lemma_sifted_none(markers@, now);
        }
        while i < markers.len()
            invariant
                i <= markers@.len(),
                distinct_keys(markers@),
                sifted(markers@, kept@, i as int, now),
            decreases markers@.len() - i,
        {
            let marker = markers[i];
            if marker.live_at(now) {
                proof {
                    lemma_sifted_keep(markers@, kept@, i as int, now);
                }
                kept.push(marker);
            } else {
                proof {
                    lemma_sifted_drop(markers@, kept@, i as int, now);
                }
            }
            i += 1;
        }
        proof {
            lemma_purged(markers@, kept@, now);
        }
        self.markers = kept;
    }

    /// The number of markers held, expired ones included.
    pub fn len(&self) -> (r: usize)
        ensures
            r == self@.dom().len(),
    {
        proof {
            use_type_invariant(self);
            lemma_markers_count(self.markers@);
        }
        self.markers.len()
    }
}

proof fn lemma_replace_marker(s: Seq<Marker>, i: int, now: u64, ttl: u64)
    requires
        distinct_keys(s),
        0 <= i < s.len(),
    ensures
        distinct_keys(s.update(i, Marker { key: s[i].key, marked_at: now, ttl })),
        markers_map(s.update(i, Marker { key: s[i].key, marked_at: now, ttl })) == markers_map(
            s,
        ).insert(s[i].key, expiry(now, ttl)),
{
    let expires_at = expiry(now, ttl);
    let t = s.update(i, Marker { key: s[i].key, marked_at: now, ttl });
    assert(distinct_keys(t)) by {
        assert forall|a: int, b: int| 0 <= a < b < t.len() implies t[a].key != t[b].key by {
            assert(s[a].key != s[b].key);
        }
    }
    assert forall|key: u64| has_key(t, key) == has_key(s, key) by {
        if has_key(s, key) {
            let j = index_of(s, key);
            assert(t[j].key == key);
        }
        if has_key(t, key) {
            let j = index_of(t, key);
            assert(s[j].key == key);
        }
    }
    assert forall|key: u64| has_key(t, key) implies markers_map(t)[key] == markers_map(s).insert(
        s[i].key,
        expires_at,
    )[key] by {
        let j = index_of(t, key);
        lemma_marker_at(t, j);
        lemma_marker_at(s, j);
    }
    lemma_marker_at(s, i);
    assert(markers_map(t) =~= markers_map(s).insert(s[i].key, expires_at));
}

proof fn lemma_add_marker(s: Seq<Marker>, marker: Marker)
    requires
        distinct_keys(s),
        !has_key(s, marker.key),
    ensures
        distinct_keys(s.push(marker)),
        markers_map(s.push(marker)) == markers_map(s).insert(marker.key, marker.expires_at()),
{
    let t = s.push(marker);
    assert(distinct_keys(t)) by {
        assert forall|a: int, b: int| 0 <= a < b < t.len() implies t[a].key != t[b].key by {
            if b < s.len() {
                assert(s[a].key != s[b].key);
            } else {
                assert(s[a].key == s[a].key);
            }
        }
    }
    assert forall|key: u64| has_key(t, key) == (has_key(s, key) || key == marker.key) by {
        if has_key(s, key) {
            let j = index_of(s, key);
            assert(t[j].key == key);
        }
        if key == marker.key {
            assert(t[s.len() as int].key == key);
        }
        if has_key(t, key) {
            let j = index_of(t, key);
            if j < s.len() {
                assert(s[j].key == key);
            }
        }
    }
    assert forall|key: u64| has_key(t, key) implies markers_map(t)[key] == markers_map(s).insert(
        marker.key,
        marker.expires_at(),
    )[key] by {
        let j = index_of(t, key);
        lemma_marker_at(t, j);
        if j < s.len() {
            lemma_marker_at(s, j);
        }
    }
    assert(markers_map(t) =~= markers_map(s).insert(marker.key, marker.expires_at()));
}

/// `kept` holds, once each, the markers among the first `upto` of `s` that
/// are live at `now`, and no others.
#[verifier::opaque]
spec fn sifted(s: Seq<Marker>, kept: Seq<Marker>, upto: int, now: u64) -> bool {
    &&& distinct_keys(kept)
    &&& forall|j: int|
        0 <= j < kept.len() ==> now < (#[trigger] kept[j]).expires_at() && exists|k: int|
            0 <= k < upto && s[k] == kept[j]
    &&& forall|k: int|
        0 <= k < upto && now < (#[trigger] s[k]).expires_at() ==> exists|j: int|
            0 <= j < kept.len() && kept[j] == s[k]
}

proof fn lemma_sifted_none(s: Seq<Marker>, now: u64)
    ensures
        sifted(s, Seq::<Marker>::empty(), 0, now),
{
    reveal(sifted);
}

proof fn lemma_sifted_drop(s: Seq<Marker>, kept: Seq<Marker>, upto: int, now: u64)
    requires
        0 <= upto < s.len(),
        sifted(s, kept, upto, now),
        !(now < s[upto].expires_at()),
    ensures
        sifted(s, kept, upto + 1, now),
{
    reveal(sifted);
    assert forall|j: int| 0 <= j < kept.len() implies now < (#[trigger] kept[j]).expires_at()
        && exists|k: int| 0 <= k < upto + 1 && s[k] == kept[j] by {
        let k = choose|k: int| 0 <= k < upto && s[k] == kept[j];
        assert(0 <= k < upto + 1 && s[k] == kept[j]);
    }
}

proof fn lemma_sifted_keep(s: Seq<Marker>, kept: Seq<Marker>, upto: int, now: u64)
    requires
        distinct_keys(s),
        0 <= upto < s.len(),
        sifted(s, kept, upto, now),
        now < s[upto].expires_at(),
    ensures
        sifted(s, kept.push(s[upto]), upto + 1, now),
{
    reveal(sifted);
    let marker = s[upto];
    let more = kept.push(marker);
    assert forall|j: int| 0 <= j < kept.len() implies kept[j].key != marker.key by {
        let k = choose|k: int| 0 <= k < upto && s[k] == kept[j];
        assert(s[k].key != s[upto].key);
    }
    assert(distinct_keys(more)) by {
        assert forall|a: int, b: int| 0 <= a < b < more.len() implies more[a].key
            != more[b].key by {
            if b < kept.len() {
                assert(kept[a].key != kept[b].key);
            } else {
                assert(kept[a].key != marker.key);
            }
        }
    }
    assert forall|j: int| 0 <= j < more.len() implies now < (#[trigger] more[j]).expires_at()
        && exists|k: int| 0 <= k < upto + 1 && s[k] == more[j] by {
        if j < kept.len() {
            let k = choose|k: int| 0 <= k < upto && s[k] == kept[j];
            assert(0 <= k < upto + 1 && s[k] == more[j]);
        } else {
            assert(0 <= upto < upto + 1 && s[upto] == more[j]);
        }
    }
    assert forall|k: int| 0 <= k < upto + 1 && now < (#[trigger] s[k]).expires_at() implies exists|
        j: int,
    | 0 <= j < more.len() && more[j] == s[k] by {
        if k < upto {
            let j = choose|j: int| 0 <= j < kept.len() && kept[j] == s[k];
            assert(0 <= j < more.len() && more[j] == s[k]);
        } else {
            assert(more[kept.len() as int] == s[k]);
        }
    }
}

/// What was sifted from all of `s` is `s` purged.
proof fn lemma_purged(s: Seq<Marker>, kept: Seq<Marker>, now: u64)
    requires
        distinct_keys(s),
        sifted(s, kept, s.len() as int, now),
    ensures
        distinct_keys(kept),
        markers_map(kept) == purge_spec(markers_map(s), now),
{
    reveal(sifted);
    let m = markers_map(s);
    assert forall|key: u64| has_key(kept, key) == is_live(m, key, now) by {
        if has_key(kept, key) {
            let j = index_of(kept, key);
            let k = choose|k: int| 0 <= k < s.len() && s[k] == kept[j];
            lemma_marker_at(s, k);
        }
        if is_live(m, key, now) {
            let k = index_of(s, key);
            lemma_marker_at(s, k);
            let j = choose|j: int| 0 <= j < kept.len() && kept[j] == s[k];
            assert(kept[j].key == key);
        }
    }
    assert forall|key: u64| has_key(kept, key) implies markers_map(kept)[key] == m[key] by {
        let j = index_of(kept, key);
        lemma_marker_at(kept, j);
        let k = choose|k: int| 0 <= k < s.len() && s[k] == kept[j];
        lemma_marker_at(s, k);
    }
    assert(markers_map(kept) =~= purge_spec(m, now));
}

proof fn lemma_markers_count(s: Seq<Marker>)
    requires
        distinct_keys(s),
    ensures
        markers_map(s).dom().finite(),
        markers_map(s).dom().len() == s.len(),
    decreases s.len(),
{
    if s.len() == 0 {
        assert(markers_map(s).dom() =~= Set::<u64>::empty());
    } else {
        let front = s.drop_last();
        let last = s.last();
        assert(distinct_keys(front)) by {
            assert forall|a: int, b: int| 0 <= a < b < front.len() implies front[a].key
                != front[b].key by {
                assert(s[a].key != s[b].key);
            }
        }
        assert(!has_key(front, last.key)) by {
            if has_key(front, last.key) {
                let j = index_of(front, last.key);
                assert(s[j].key != s[s.len() - 1].key);
            }
        }
        lemma_markers_count(front);
        lemma_add_marker(front, last);
        assert(front.push(last) =~= s);
        assert(markers_map(s).dom() =~= markers_map(front).dom().insert(last.key));
    }
}

/// What a `DedupPool` holds.
pub struct DedupPoolView {
    /// The time to live that the pool marks fingerprints with.
    pub ttl: u64,
    /// The fingerprints that the pool holds, each with its expiry time.
    pub markers: Map<u64, nat>,
}

/// The store of one telemetry format, with the time to live that the format
/// is configured with.
#[derive(Debug)]
pub struct DedupPool {
    ttl: u64,
    cache: DedupCache,
}

impl View for DedupPool {
    type V = DedupPoolView;

    closed spec fn view(&self) -> DedupPoolView {
        DedupPoolView { ttl: self.ttl, markers: self.cache@ }
    }
}

impl DedupPool {
    /// An empty store that keeps fingerprints for `ttl`.
    pub fn new(ttl: u64) -> (r: Self)
        ensures
            r@ == (DedupPoolView { ttl, markers: Map::<u64, nat>::empty() }),
    {
        DedupPool { ttl, cache: DedupCache::new() }
    }

    /// `DedupCache::seen_or_mark` with the pool's time to live.
    pub fn seen_or_mark(&mut self, key: DedupKey, now: u64) -> (r: bool)
        ensures
            r == is_live(old(self)@.markers, key, now),
            final(self)@ == (DedupPoolView {
                ttl: old(self)@.ttl,
                markers: mark_spec(old(self)@.markers, key, old(self)@.ttl, now),
            }),
    {
        self.cache.seen_or_mark(key, self.ttl, now)
    }

    /// Drops the markers that have expired at `now`.
    pub fn purge(&mut self, now: u64)
        ensures
            final(self)@ == (DedupPoolView {
                ttl: old(self)@.ttl,
                markers: purge_spec(old(self)@.markers, now),
            }),
    {
        self.cache.purge(now);
    }

    /// The number of markers held, expired ones included.
    pub fn len(&self) -> (r: usize)
        ensures
            r == self@.markers.dom().len(),
    {
        self.cache.len()
    }
}

/// The stores of all formats. Each format has a store of its own, so that a
/// packet in one format never passes for a packet in another.
#[derive(Debug)]
pub struct DedupPools {
    pub mavlink: DedupPool,
    pub adsb: DedupPool,
    pub netrid: DedupPool,
}

/// What the stores of all formats hold.
pub struct DedupPoolsView {
    pub mavlink: DedupPoolView,
    pub adsb: DedupPoolView,
    pub netrid: DedupPoolView,
}

impl View for DedupPools {
    type V = DedupPoolsView;

    open spec fn view(&self) -> DedupPoolsView {
        DedupPoolsView { mavlink: self.mavlink@, adsb: self.adsb@, netrid: self.netrid@ }
    }
}

/// The store of a format.
pub open spec fn pool_of(pools: DedupPoolsView, format: TelemetryFormat) -> DedupPoolView {
    match format {
        TelemetryFormat::Mavlink => pools.mavlink,
        TelemetryFormat::Adsb => pools.adsb,
        TelemetryFormat::NetworkRemoteId => pools.netrid,
    }
}

/// The stores with the markers of one format replaced.
pub open spec fn with_markers(
    pools: DedupPoolsView,
    format: TelemetryFormat,
    markers: Map<u64, nat>,
) -> DedupPoolsView {
    match format {
        TelemetryFormat::Mavlink => DedupPoolsView {
            mavlink: DedupPoolView { markers, ..pools.mavlink },
            ..pools
        },
        TelemetryFormat::Adsb => DedupPoolsView {
            adsb: DedupPoolView { markers, ..pools.adsb },
            ..pools
        },
        TelemetryFormat::NetworkRemoteId => DedupPoolsView {
            netrid: DedupPoolView { markers, ..pools.netrid },
            ..pools
        },
    }
}

impl DedupPools {
    /// Empty stores, each with the time to live of its format.
    pub fn new(ttl_mavlink: u64, ttl_adsb: u64, ttl_netrid: u64) -> (r: Self)
        ensures
            r@ == (DedupPoolsView {
                mavlink: DedupPoolView { ttl: ttl_mavlink, markers: Map::<u64, nat>::empty() },
                adsb: DedupPoolView { ttl: ttl_adsb, markers: Map::<u64, nat>::empty() },
                netrid: DedupPoolView { ttl: ttl_netrid, markers: Map::<u64, nat>::empty() },
            }),
    {
        DedupPools {
            mavlink: DedupPool::new(ttl_mavlink),
            adsb: DedupPool::new(ttl_adsb),
            netrid: DedupPool::new(ttl_netrid),
        }
    }

    /// `DedupCache::seen_or_mark` in the store of `format`, with that
    /// format's time to live. The stores of the other formats are left as
    /// they are.
    pub fn seen_or_mark(&mut self, format: TelemetryFormat, key: DedupKey, now: u64) -> (r: bool)
        ensures
            r == is_live(pool_of(old(self)@, format).markers, key, now),
            final(self)@ == with_markers(
                old(self)@,
                format,
                mark_spec(
                    pool_of(old(self)@, format).markers,
                    key,
                    pool_of(old(self)@, format).ttl,
                    now,
                ),
            ),
    {
        match format {
            TelemetryFormat::Mavlink => self.mavlink.seen_or_mark(key, now),
            TelemetryFormat::Adsb => self.adsb.seen_or_mark(key, now),
            TelemetryFormat::NetworkRemoteId => self.netrid.seen_or_mark(key, now),
        }
    }

    /// Drops, from every store, the markers that have expired at `now`.
    pub fn purge(&mut self, now: u64)
        ensures
            final(self)@ == (DedupPoolsView {
                mavlink: DedupPoolView {
                    markers: purge_spec(old(self)@.mavlink.markers, now),
                    ..old(self)@.mavlink
                },
                adsb: DedupPoolView {
                    markers: purge_spec(old(self)@.adsb.markers, now),
                    ..old(self)@.adsb
                },
                netrid: DedupPoolView {
                    markers: purge_spec(old(self)@.netrid.markers, now),
                    ..old(self)@.netrid
                },
            }),
    {
        self.mavlink.purge(now);
        self.adsb.purge(now);
        self.netrid.purge(now);
    }
}

/// Of two sightings of one fingerprint within its time to live, the first
/// of which found it unseen, exactly the first is a first sighting, and the
/// second leaves the marker's expiry where the first put it.
pub proof fn lemma_one_first_sighting(
    m: Map<u64, nat>,
    key: u64,
    ttl: u64,
    first: u64,
    second: u64,
)
    requires
        !is_live(m, key, first),
        first <= second < first + ttl,
    ensures
        is_live(mark_spec(m, key, ttl, first), key, second),
        mark_spec(mark_spec(m, key, ttl, first), key, ttl, second) == mark_spec(m, key, ttl, first),
        mark_spec(m, key, ttl, first)[key] == expiry(first, ttl),
{
}

/// A sighting of one fingerprint does not touch the marker of another.
pub proof fn lemma_other_keys_untouched(
    m: Map<u64, nat>,
    key: u64,
    other: u64,
    ttl: u64,
    now: u64,
    at: u64,
)
    requires
        key != other,
    ensures
        is_live(mark_spec(m, key, ttl, now), other, at) == is_live(m, other, at),
{
}

/// A sighting in the store of one format does not touch the store of
/// another: the same fingerprint is as live there as it was.
pub proof fn lemma_formats_are_independent(
    pools: DedupPoolsView,
    format: TelemetryFormat,
    other: TelemetryFormat,
    markers: Map<u64, nat>,
)
    requires
        format != other,
    ensures
        pool_of(with_markers(pools, format, markers), other) == pool_of(pools, other),
        pool_of(with_markers(pools, format, markers), format).markers == markers,
        pool_of(with_markers(pools, format, markers), format).ttl == pool_of(pools, format).ttl,
{
}

} // verus!
