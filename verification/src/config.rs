//! Configuration resolution: validates the detector-to-chunker dependency
//! graph and produces the resolved map the detection runner works from.
//!
//! Every detector names exactly one chunker. Resolution pairs each detector
//! with its chunker and groups the detectors by chunker (so detectors sharing
//! a chunker can share its chunk calls), failing the whole configuration as
//! soon as one detector references an undefined chunker: a misconfigured
//! detector must not be silently dropped. Resolution is pure and
//! deterministic and performs no I/O; on failure no partial map is returned.

use vstd::prelude::*;

verus! {

/// One chunker definition: its name and its backend endpoint descriptor.
#[derive(Debug)]
pub struct ChunkerConfig {
    pub name: String,
    pub endpoint: String,
}

impl ChunkerConfig {
    /// An exact copy of the definition.
    pub fn duplicate(&self) -> (r: ChunkerConfig)
        ensures
            r == *self,
    {
        ChunkerConfig { name: self.name.clone(), endpoint: self.endpoint.clone() }
    }
}

/// One detector definition: its name, the name of the one chunker it needs,
/// and its backend endpoint descriptor.
#[derive(Debug)]
pub struct DetectorConfig {
    pub name: String,
    pub chunker: String,
    pub endpoint: String,
}

/// The loaded configuration: the chunker set and the detector set.
#[derive(Debug)]
pub struct DetectorMap {
    pub chunkers: Vec<ChunkerConfig>,
    pub detectors: Vec<DetectorConfig>,
}

/// The error that rejects a whole configuration.
#[derive(Debug)]
pub enum ConfigError {
    /// The named detector references a chunker the configuration does not
    /// define.
    UnresolvedChunker(String),
}

/// The resolved, read-only view of a valid configuration: each detector
/// paired with its chunker, in detector order, and the detectors grouped by
/// chunker, keys in first-seen order.
#[derive(Debug)]
pub struct ResolvedDetectorMap {
    pub detector_chunkers: Vec<(String, String)>,
    pub chunker_detectors: Vec<(String, Vec<String>)>,
    /// The chunker definitions of the configuration, so the pairing above
    /// resolves through to each chunker's endpoint (see `chunker_config`).
    pub chunkers: Vec<ChunkerConfig>,
}

impl ResolvedDetectorMap {
    /// The definition of the named chunker, for placing its chunk calls:
    /// the first chunker entry carrying this name, or nothing when the
    /// configuration defines no such chunker.
    #[verifier::loop_isolation(false)]
    pub fn chunker_config(&self, name: &String) -> (r: Option<&ChunkerConfig>)
        ensures
            match r {
                Option::Some(c) => exists|i: int|
                    0 <= i < self.chunkers@.len() && (#[trigger] self.chunkers@[i]) == *c
                        && c.name@ == name@,
                Option::None => forall|i: int|
                    0 <= i < self.chunkers@.len() ==> (#[trigger] self.chunkers@[i]).name@
                        != name@,
            },
    {
        let mut i: usize = 0;
        while i < self.chunkers.len()
            invariant
                i <= self.chunkers@.len(),
                forall|l: int|
                    0 <= l < i ==> (#[trigger] self.chunkers@[l]).name@ != name@,
            decreases self.chunkers@.len() - i,
        {
            if self.chunkers[i].name == *name {
                return Some(&self.chunkers[i]);
            }
            i = i + 1;
        }
        None
    }
}

/// The character contents of a list of strings.
pub open spec fn string_views(ss: Seq<String>) -> Seq<Seq<char>> {
    ss.map_values(|s: String| s@)
}

/// The character contents of a list of string pairs.
pub open spec fn pair_views(ps: Seq<(String, String)>) -> Seq<(Seq<char>, Seq<char>)> {
    ps.map_values(|p: (String, String)| (p.0@, p.1@))
}

/// The keys of a bucket list, in order.
pub open spec fn bucket_keys(bs: Seq<(String, Vec<String>)>) -> Seq<Seq<char>> {
    bs.map_values(|b: (String, Vec<String>)| b.0@)
}

/// Whether the chunker set defines a chunker of the given name.
pub open spec fn has_chunker(cs: Seq<ChunkerConfig>, name: Seq<char>) -> bool {
    exists|i: int| 0 <= i < cs.len() && (#[trigger] cs[i]).name@ == name
}

/// Each detector as a `(detector name, chunker name)` pair, in order.
pub open spec fn detector_pairs(m: DetectorMap) -> Seq<(Seq<char>, Seq<char>)> {
    m.detectors@.map_values(|d: DetectorConfig| (d.name@, d.chunker@))
}

/// Whether detector `k` of the map references a defined chunker.
pub open spec fn detector_resolvable(m: DetectorMap, k: int) -> bool {
    has_chunker(m.chunkers@, m.detectors@[k].chunker@)
}

/// Whether every detector of the map references a defined chunker.
pub open spec fn all_resolvable(m: DetectorMap) -> bool {
    forall|k: int| 0 <= k < m.detectors@.len() ==> detector_resolvable(m, k)
}

/// The distinct keys of a pair list, in first-seen order.
pub open spec fn seen_keys(ps: Seq<(Seq<char>, Seq<char>)>) -> Seq<Seq<char>>
    decreases ps.len(),
{
    if ps.len() == 0 {
        Seq::empty()
    } else {
        let prefix = seen_keys(ps.drop_last());
        if prefix.contains(ps.last().1) {
            prefix
        } else {
            prefix.push(ps.last().1)
        }
    }
}

/// The names of the pairs carrying the given key, in the order supplied.
pub open spec fn names_for(ps: Seq<(Seq<char>, Seq<char>)>, key: Seq<char>) -> Seq<Seq<char>>
    decreases ps.len(),
{
    if ps.len() == 0 {
        Seq::empty()
    } else {
        let prefix = names_for(ps.drop_last(), key);
        if ps.last().1 == key {
            prefix.push(ps.last().0)
        } else {
            prefix
        }
    }
}

/// The bucket list `bs` groups the pairs `ps` by key: one bucket per
/// distinct key in first-seen order, each holding the names of the pairs
/// carrying its key, in the order the pairs were supplied.
pub open spec fn buckets_of(bs: Seq<(String, Vec<String>)>, ps: Seq<(Seq<char>, Seq<char>)>) -> bool {
    &&& bucket_keys(bs) == seen_keys(ps)
    &&& forall|j: int|
        0 <= j < bs.len() ==> string_views((#[trigger] bs[j]).1@) == names_for(ps, bs[j].0@)
}

/// Everything a successful resolution promises: the pairing lists every
/// detector with its declared chunker, in detector order, and the buckets
/// group exactly those pairs by chunker.
pub open spec fn resolves(m: DetectorMap, r: ResolvedDetectorMap) -> bool {
    &&& pair_views(r.detector_chunkers@) == detector_pairs(m)
    &&& buckets_of(r.chunker_detectors@, detector_pairs(m))
    &&& r.chunkers@ == m.chunkers@
}

/// No two entries of the sequence are equal.
pub open spec fn distinct_seq(s: Seq<Seq<char>>) -> bool {
    forall|i: int, j: int| 0 <= i < j < s.len() ==> s[i] != s[j]
}

/// No two pairs share a name (their first component).
pub open spec fn distinct_names(ps: Seq<(Seq<char>, Seq<char>)>) -> bool {
    forall|i: int, j: int| 0 <= i < j < ps.len() ==> (#[trigger] ps[i]).0 != (#[trigger] ps[j]).0
}

/// How many entries of the sequence equal `x`.
pub open spec fn count_of(s: Seq<Seq<char>>, x: Seq<char>) -> nat
    decreases s.len(),
{
    if s.len() == 0 {
        0
    } else {
        count_of(s.drop_last(), x) + if s.last() == x {
            1nat
        } else {
            0nat
        }
    }
}

/// The key of every pair occurs among the seen keys.
pub proof fn lemma_seen_keys_contains(ps: Seq<(Seq<char>, Seq<char>)>, k: int)
    requires
        0 <= k < ps.len(),
    ensures
        seen_keys(ps).contains(ps[k].1),
    decreases ps.len(),
{
    let prefix = seen_keys(ps.drop_last());
    if k == ps.len() - 1 {
        if prefix.contains(ps.last().1) {
        } else {
            assert(seen_keys(ps)[prefix.len() as int] == ps.last().1);
        }
    } else {
        lemma_seen_keys_contains(ps.drop_last(), k);
        assert(ps.drop_last()[k] == ps[k]);
        let l = choose|l: int| 0 <= l < prefix.len() && prefix[l] == ps[k].1;
        assert(seen_keys(ps)[l] == ps[k].1);
    }
}

/// The seen keys are pairwise distinct: a key gets one bucket only.
pub proof fn lemma_seen_keys_distinct(ps: Seq<(Seq<char>, Seq<char>)>)
    ensures
        distinct_seq(seen_keys(ps)),
    decreases ps.len(),
{
    if ps.len() == 0 {
    } else {
        lemma_seen_keys_distinct(ps.drop_last());
        let prefix = seen_keys(ps.drop_last());
        if prefix.contains(ps.last().1) {
        } else {
            assert forall|i: int, j: int|
                0 <= i < j < seen_keys(ps).len() implies seen_keys(ps)[i] != seen_keys(ps)[j] by {
                if j < prefix.len() {
                } else {
                    assert(seen_keys(ps)[j] == ps.last().1);
                    assert(!prefix.contains(seen_keys(ps)[j]));
                    assert(prefix[i] == seen_keys(ps)[i]);
                }
            }
        }
    }
}

/// A name never carried by any pair never lands in a bucket.
pub proof fn lemma_names_for_count_absent(ps: Seq<(Seq<char>, Seq<char>)>, key: Seq<char>, x: Seq<char>)
    requires
        forall|k: int| 0 <= k < ps.len() ==> (#[trigger] ps[k]).0 != x,
    ensures
        count_of(names_for(ps, key), x) == 0,
    decreases ps.len(),
{
    if ps.len() == 0 {
    } else {
        assert forall|k: int| 0 <= k < ps.drop_last().len() implies (#[trigger] ps.drop_last()[k]).0
            != x by {
            assert(ps.drop_last()[k] == ps[k]);
        }
        lemma_names_for_count_absent(ps.drop_last(), key, x);
        if ps.last().1 == key {
            let inner = names_for(ps.drop_last(), key);
            assert(names_for(ps, key).drop_last() =~= inner);
        }
    }
}

/// When pair names are pairwise distinct, the name of pair `k` occurs in the
/// bucket of its own key exactly once and in any other bucket not at all.
pub proof fn lemma_names_for_count(ps: Seq<(Seq<char>, Seq<char>)>, k: int, key: Seq<char>)
    requires
        distinct_names(ps),
        0 <= k < ps.len(),
    ensures
        count_of(names_for(ps, key), ps[k].0) == if ps[k].1 == key {
            1nat
        } else {
            0nat
        },
    decreases ps.len(),
{
    let pre = ps.drop_last();
    assert forall|i: int, j: int| 0 <= i < j < pre.len() implies (#[trigger] pre[i]).0
        != (#[trigger] pre[j]).0 by {
        assert(pre[i] == ps[i] && pre[j] == ps[j]);
    }
    if k == ps.len() - 1 {
        assert forall|l: int| 0 <= l < pre.len() implies (#[trigger] pre[l]).0 != ps[k].0 by {
            assert(pre[l] == ps[l]);
        }
        lemma_names_for_count_absent(pre, key, ps[k].0);
        if ps.last().1 == key {
            let inner = names_for(pre, key);
            assert(names_for(ps, key).drop_last() =~= inner);
            assert(names_for(ps, key).last() == ps[k].0);
        }
    } else {
        assert(pre[k] == ps[k]);
        lemma_names_for_count(pre, k, key);
        if ps.last().1 == key {
            let inner = names_for(pre, key);
            assert(names_for(ps, key).drop_last() =~= inner);
            assert(ps.last().0 != ps[k].0);
        }
    }
}

/// Law: in a successful resolution of a configuration whose detector names
/// are pairwise distinct, every detector appears in exactly one chunker
/// bucket: once in the bucket of its own chunker, nowhere else, and the
/// bucket keys themselves are pairwise distinct.
pub proof fn lemma_detector_in_exactly_one_bucket(m: DetectorMap, r: ResolvedDetectorMap, k: int)
    requires
        resolves(m, r),
        distinct_names(detector_pairs(m)),
        0 <= k < m.detectors@.len(),
    ensures
        distinct_seq(bucket_keys(r.chunker_detectors@)),
        exists|j: int|
            0 <= j < r.chunker_detectors@.len() && (#[trigger] r.chunker_detectors@[j]).0@
                == m.detectors@[k].chunker@,
        forall|j: int|
            0 <= j < r.chunker_detectors@.len() ==> count_of(
                string_views((#[trigger] r.chunker_detectors@[j]).1@),
                m.detectors@[k].name@,
            ) == if r.chunker_detectors@[j].0@ == m.detectors@[k].chunker@ {
                1nat
            } else {
                0nat
            },
{
    let ps = detector_pairs(m);
    assert(ps[k] == (m.detectors@[k].name@, m.detectors@[k].chunker@));
    lemma_seen_keys_distinct(ps);
    lemma_seen_keys_contains(ps, k);
    let keys = seen_keys(ps);
    let j = choose|j: int| 0 <= j < keys.len() && keys[j] == ps[k].1;
    assert(bucket_keys(r.chunker_detectors@)[j] == keys[j]);
    assert((r.chunker_detectors@[j]).0@ == m.detectors@[k].chunker@);
    assert forall|l: int| 0 <= l < r.chunker_detectors@.len() implies count_of(
        string_views((#[trigger] r.chunker_detectors@[l]).1@),
        m.detectors@[k].name@,
    ) == if r.chunker_detectors@[l].0@ == m.detectors@[k].chunker@ {
        1nat
    } else {
        0nat
    } by {
        assert(bucket_keys(r.chunker_detectors@)[l] == r.chunker_detectors@[l].0@);
        lemma_names_for_count(ps, k, r.chunker_detectors@[l].0@);
    }
}

/// Law: resolution is deterministic — two resolved maps of one and the
/// same configuration agree, entry for entry, in their detector pairings,
/// their bucket keys and their bucket contents.
pub proof fn lemma_resolution_deterministic(
    m: DetectorMap,
    r1: ResolvedDetectorMap,
    r2: ResolvedDetectorMap,
)
    requires
        resolves(m, r1),
        resolves(m, r2),
    ensures
        pair_views(r1.detector_chunkers@) == pair_views(r2.detector_chunkers@),
        r1.chunkers@ == r2.chunkers@,
        bucket_keys(r1.chunker_detectors@) == bucket_keys(r2.chunker_detectors@),
        r1.chunker_detectors@.len() == r2.chunker_detectors@.len(),
        forall|j: int|
            0 <= j < r1.chunker_detectors@.len() ==> string_views(
                (#[trigger] r1.chunker_detectors@[j]).1@,
            ) == string_views(r2.chunker_detectors@[j].1@),
{
    assert(r1.chunker_detectors@.len() == seen_keys(detector_pairs(m)).len());
    assert forall|j: int| 0 <= j < r1.chunker_detectors@.len() implies string_views(
        (#[trigger] r1.chunker_detectors@[j]).1@,
    ) == string_views(r2.chunker_detectors@[j].1@) by {
        assert(bucket_keys(r1.chunker_detectors@)[j] == r1.chunker_detectors@[j].0@);
        assert(bucket_keys(r2.chunker_detectors@)[j] == r2.chunker_detectors@[j].0@);
        assert(r1.chunker_detectors@[j].0@ == r2.chunker_detectors@[j].0@);
    }
}

/// Whether some string of `keys` has the same characters as `name`.
fn contains_string(keys: &Vec<String>, name: &String) -> (r: bool)
    ensures
        r == string_views(keys@).contains(name@),
{
    let mut found = false;
    let mut j: usize = 0;
    while j < keys.len()
        invariant
            j <= keys@.len(),
            found <==> exists|l: int| 0 <= l < j && (#[trigger] keys@[l])@ == name@,
        decreases keys@.len() - j,
    {
        if keys[j] == *name {
            found = true;
        }
        j = j + 1;
    }
    proof {
        if found {
            let l = choose|l: int| 0 <= l < keys@.len() && (#[trigger] keys@[l])@ == name@;
            assert(string_views(keys@)[l] == name@);
        } else {
            assert forall|l: int| 0 <= l < string_views(keys@).len() implies string_views(
                keys@,
            )[l] != name@ by {
                assert(keys@[l]@ != name@);
            }
        }
    }
    found
}

/// Groups `(name, key)` pairs by key: one bucket per distinct key, keys in
/// first-seen order, each bucket holding the names that carry its key in
/// the order the pairs were supplied.
#[verifier::loop_isolation(false)]
pub fn group_pairs(pairs: &Vec<(String, String)>) -> (r: Vec<(String, Vec<String>)>)
    ensures
        buckets_of(r@, pair_views(pairs@)),
{
    let ghost ps = pair_views(pairs@);
    let mut keys: Vec<String> = Vec::new();
    let mut k: usize = 0;
    while k < pairs.len()
        invariant
            k <= pairs@.len(),
            string_views(keys@) == seen_keys(ps.take(k as int)),
        decreases pairs@.len() - k,
    {
        proof {
            assert(ps.take((k + 1) as int).drop_last() =~= ps.take(k as int));
            assert(ps.take((k + 1) as int).last() == ps[k as int]);
        }
        let found = contains_string(&keys, &pairs[k].1);
        if !found {
            keys.push(pairs[k].1.clone());
            proof {
                assert(string_views(keys@) =~= seen_keys(ps.take((k + 1) as int)));
            }
        }
        k = k + 1;
    }
    proof {
        assert(ps.take(pairs@.len() as int) =~= ps);
    }
    let mut buckets: Vec<(String, Vec<String>)> = Vec::new();
    let mut j: usize = 0;
    while j < keys.len()
        invariant
            j <= keys@.len(),
            buckets@.len() == j,
            bucket_keys(buckets@) == string_views(keys@).take(j as int),
            forall|l: int|
                0 <= l < j ==> string_views((#[trigger] buckets@[l]).1@) == names_for(
                    ps,
                    buckets@[l].0@,
                ),
        decreases keys@.len() - j,
    {
        let key = keys[j].clone();
        let mut names: Vec<String> = Vec::new();
        let mut k2: usize = 0;
        while k2 < pairs.len()
            invariant
                k2 <= pairs@.len(),
                key@ == keys@[j as int]@,
                string_views(names@) == names_for(ps.take(k2 as int), key@),
            decreases pairs@.len() - k2,
        {
            proof {
                assert(ps.take((k2 + 1) as int).drop_last() =~= ps.take(k2 as int));
                assert(ps.take((k2 + 1) as int).last() == ps[k2 as int]);
            }
            if pairs[k2].1 == key {
                names.push(pairs[k2].0.clone());
                proof {
                    assert(string_views(names@) =~= names_for(ps.take((k2 + 1) as int), key@));
                }
            } else {
                proof {
                    assert(string_views(names@) =~= names_for(ps.take((k2 + 1) as int), key@));
                }
            }
            k2 = k2 + 1;
        }
        proof {
            assert(ps.take(pairs@.len() as int) =~= ps);
        }
        buckets.push((key, names));
        proof {
            assert(bucket_keys(buckets@) =~= string_views(keys@).take((j + 1) as int));
        }
        j = j + 1;
    }
    proof {
        assert(string_views(keys@).take(keys@.len() as int) =~= string_views(keys@));
    }
    buckets
}

/// Resolves the detector-to-chunker dependency graph of a loaded
/// configuration.
///
/// Succeeds exactly when every detector's declared chunker exists in the
/// chunker set; the result then pairs each detector with its chunker and
/// groups the detectors by chunker. Otherwise the whole resolution fails
/// with the name of the first detector whose chunker is undefined, and no
/// partial map is returned.
#[verifier::loop_isolation(false)]
pub fn preprocess_detector_map(detector_map: &DetectorMap) -> (r: Result<
    ResolvedDetectorMap,
    ConfigError,
>)
    ensures
        match r {
            Ok(resolved) => all_resolvable(*detector_map) && resolves(*detector_map, resolved),
            Err(e) => {
                &&& !all_resolvable(*detector_map)
                &&& e matches ConfigError::UnresolvedChunker(name) && exists|k: int|
                    0 <= k < detector_map.detectors@.len() && !detector_resolvable(*detector_map, k)
                        && (#[trigger] detector_map.detectors@[k]).name@ == name@ && (forall|l: int|
                        0 <= l < k ==> detector_resolvable(*detector_map, l))
            },
        },
{
    let ghost dp = detector_pairs(*detector_map);
    let mut pairs: Vec<(String, String)> = Vec::new();
    let mut k: usize = 0;
    while k < detector_map.detectors.len()
        invariant
            k <= detector_map.detectors@.len(),
            pairs@.len() == k,
            pair_views(pairs@) == dp.take(k as int),
            forall|l: int| 0 <= l < k ==> detector_resolvable(*detector_map, l),
        decreases detector_map.detectors@.len() - k,
    {
        let d = &detector_map.detectors[k];
        let mut found = false;
        let mut i: usize = 0;
        while i < detector_map.chunkers.len()
            invariant
                i <= detector_map.chunkers@.len(),
                found <==> exists|l: int|
                    0 <= l < i && (#[trigger] detector_map.chunkers@[l]).name@ == d.chunker@,
            decreases detector_map.chunkers@.len() - i,
        {
            if detector_map.chunkers[i].name == d.chunker {
                found = true;
            }
            i = i + 1;
        }
        if !found {
            proof {
                assert(!detector_resolvable(*detector_map, k as int));
            }
            return Err(ConfigError::UnresolvedChunker(d.name.clone()));
        }
        pairs.push((d.name.clone(), d.chunker.clone()));
        proof {
            assert(dp.take((k + 1) as int).drop_last() =~= dp.take(k as int));
            assert(pair_views(pairs@) =~= dp.take((k + 1) as int));
        }
        k = k + 1;
    }
    proof {
        assert(dp.take(detector_map.detectors@.len() as int) =~= dp);
    }
    let chunker_detectors = group_pairs(&pairs);
    let chunkers = copy_chunkers(&detector_map.chunkers);
    Ok(ResolvedDetectorMap { detector_chunkers: pairs, chunker_detectors, chunkers })
}

/// An element-wise copy of a list of chunker definitions.
#[verifier::loop_isolation(false)]
fn copy_chunkers(xs: &Vec<ChunkerConfig>) -> (r: Vec<ChunkerConfig>)
    ensures
        r@ == xs@,
{
    let mut r: Vec<ChunkerConfig> = Vec::new();
    let mut i: usize = 0;
    while i < xs.len()
        invariant
            i <= xs@.len(),
            r@ == xs@.take(i as int),
        decreases xs@.len() - i,
    {
        r.push(xs[i].duplicate());
        proof {
            assert(xs@.take((i + 1) as int) =~= xs@.take(i as int).push(xs@[i as int]));
        }
        i = i + 1;
    }
    proof {
        assert(xs@.take(xs@.len() as int) =~= xs@);
    }
    r
}

} // verus!
