//! The detection runner: plans the chunk/detect fan-out for one detection
//! phase and merges the per-call outcomes back into per-detector results.
//!
//! Detectors sharing a chunker are grouped so one chunk call per segment is
//! issued for the whole group. The backend calls themselves are asynchronous
//! operations of the transport layer; this module produces the exact call
//! plan beforehand and aggregates whatever outcomes come back: per-detector
//! results in segment order, a per-detector failure marker when some of its
//! calls failed, and a whole-phase failure only when every detector failed.

use vstd::prelude::*;

verus! {

use crate::config::{
    ResolvedDetectorMap,
    bucket_keys,
    buckets_of,
    distinct_seq,
    group_pairs,
    pair_views,
};
use crate::errors::{BackendError, ErrorKind, backend_error_kind, kind_of_backend_error};

/// The score scale: a confidence of 1.0 is reported as this many
/// thousandths.
pub const SCORE_SCALE: u32 = 1000;

/// One detection finding: offsets relative to the segment, the matched
/// text, its category labels, a confidence score in thousandths, and the
/// token count of the span.
#[derive(Debug)]
pub struct DetectionResult {
    pub start: u32,
    pub end: u32,
    pub word: String,
    pub entity: String,
    pub entity_group: String,
    pub score: u32,
    pub token_count: u32,
}

/// A finding is well formed when its span is ordered and its confidence
/// lies in [0, 1], that is, within the score scale.
pub open spec fn result_wf(r: DetectionResult) -> bool {
    r.start <= r.end && r.score <= SCORE_SCALE
}

impl DetectionResult {
    /// An exact copy of the finding.
    pub fn duplicate(&self) -> (r: DetectionResult)
        ensures
            r == *self,
    {
        DetectionResult {
            start: self.start,
            end: self.end,
            word: self.word.clone(),
            entity: self.entity.clone(),
            entity_group: self.entity_group.clone(),
            score: self.score,
            token_count: self.token_count,
        }
    }

    /// Whether the finding is well formed.
    pub fn check(&self) -> (r: bool)
        ensures
            r == result_wf(*self),
    {
        self.start <= self.end && self.score <= SCORE_SCALE
    }
}

/// One planned chunk call: which chunker to invoke on which segment.
#[derive(Debug)]
pub struct ChunkCall {
    pub chunker: String,
    pub segment_index: usize,
}

/// The plan entry laid out for bucket `g` and segment `s`.
pub open spec fn plan_entry(plan: Seq<ChunkCall>, segment_count: int, g: int, s: int) -> ChunkCall {
    plan[g * segment_count + s]
}

/// One chunk call per (bucket, segment): the entry at `g * segment_count + s`
/// targets bucket `g`'s chunker and segment `s`, and every call of the plan
/// is such an entry.
pub open spec fn plan_matches(plan: Seq<ChunkCall>, keys: Seq<Seq<char>>, segment_count: int) -> bool {
    &&& plan.len() == keys.len() * segment_count
    &&& forall|g: int, s: int|
        0 <= g < keys.len() && 0 <= s < segment_count ==> (#[trigger] plan_entry(
            plan,
            segment_count,
            g,
            s,
        )).chunker@ == keys[g] && plan_entry(plan, segment_count, g, s).segment_index == s
}

/// Lays out the chunk calls of one detection phase: for each chunker bucket,
/// one call per segment, however many detectors the bucket holds.
#[verifier::loop_isolation(false)]
pub fn plan_chunk_calls(buckets: &Vec<(String, Vec<String>)>, segment_count: usize) -> (r: Vec<
    ChunkCall,
>)
    ensures
        plan_matches(r@, bucket_keys(buckets@), segment_count as int),
{
    let mut plan: Vec<ChunkCall> = Vec::new();
    let mut g: usize = 0;
    while g < buckets.len()
        invariant
            g <= buckets@.len(),
            plan@.len() == g * segment_count,
            forall|g2: int, s2: int|
                0 <= g2 < g && 0 <= s2 < segment_count ==> (#[trigger] plan_entry(
                    plan@,
                    segment_count as int,
                    g2,
                    s2,
                )).chunker@ == bucket_keys(buckets@)[g2] && plan_entry(
                    plan@,
                    segment_count as int,
                    g2,
                    s2,
                ).segment_index == s2,
        decreases buckets@.len() - g,
    {
        let mut s: usize = 0;
        while s < segment_count
            invariant
                s <= segment_count,
                plan@.len() == g * segment_count + s,
                forall|g2: int, s2: int|
                    0 <= g2 < g && 0 <= s2 < segment_count ==> (#[trigger] plan_entry(
                        plan@,
                        segment_count as int,
                        g2,
                        s2,
                    )).chunker@ == bucket_keys(buckets@)[g2] && plan_entry(
                        plan@,
                        segment_count as int,
                        g2,
                        s2,
                    ).segment_index == s2,
                forall|s2: int|
                    0 <= s2 < s ==> (#[trigger] plan_entry(
                        plan@,
                        segment_count as int,
                        g as int,
                        s2,
                    )).chunker@ == bucket_keys(buckets@)[g as int] && plan_entry(
                        plan@,
                        segment_count as int,
                        g as int,
                        s2,
                    ).segment_index == s2,
            decreases segment_count - s,
        {
            let ghost p0 = plan@;
            plan.push(ChunkCall { chunker: buckets[g].0.clone(), segment_index: s });
            proof {
                let sc = segment_count as int;
                assert forall|g2: int, s2: int| 0 <= g2 < g && 0 <= s2 < sc implies (
                #[trigger] plan_entry(plan@, sc, g2, s2)).chunker@ == bucket_keys(buckets@)[g2]
                    && plan_entry(plan@, sc, g2, s2).segment_index == s2 by {
                    assert(g2 * sc + s2 < g * sc) by (nonlinear_arith)
                        requires
                            0 <= g2 < g,
                            0 <= s2 < sc,
                    ;
                    assert(plan@[g2 * sc + s2] == p0[g2 * sc + s2]);
                    assert(plan_entry(p0, sc, g2, s2).chunker@ == bucket_keys(buckets@)[g2]);
                }
                assert(plan_entry(plan@, sc, g as int, s as int) == plan@[p0.len() as int]);
                assert forall|s2: int| 0 <= s2 < s + 1 implies (#[trigger] plan_entry(
                    plan@,
                    sc,
                    g as int,
                    s2,
                )).chunker@ == bucket_keys(buckets@)[g as int] && plan_entry(
                    plan@,
                    sc,
                    g as int,
                    s2,
                ).segment_index == s2 by {
                    if s2 < s {
                        assert(plan@[g * sc + s2] == p0[g * sc + s2]);
                        assert(plan_entry(p0, sc, g as int, s2).chunker@ == bucket_keys(
                            buckets@,
                        )[g as int]);
                    }
                }
            }
            s = s + 1;
        }
        proof {
            assert((g + 1) * segment_count == g * segment_count + segment_count)
                by (nonlinear_arith);
        }
        g = g + 1;
    }
    plan
}

/// Law: over distinct chunker keys the plan never issues the same
/// (chunker, segment) call twice — detectors sharing a chunker share one
/// chunk call per segment instead of duplicating it.
pub proof fn lemma_one_chunk_call_per_segment(
    plan: Seq<ChunkCall>,
    keys: Seq<Seq<char>>,
    segment_count: int,
    i: int,
    j: int,
)
    requires
        plan_matches(plan, keys, segment_count),
        distinct_seq(keys),
        0 <= i < plan.len(),
        0 <= j < plan.len(),
        plan[i].chunker@ == plan[j].chunker@,
        plan[i].segment_index == plan[j].segment_index,
    ensures
        i == j,
{
    let sc = segment_count;
    assert(sc > 0) by (nonlinear_arith)
        requires
            keys.len() * sc > 0,
    ;
    vstd::arithmetic::div_mod::lemma_fundamental_div_mod(i, sc);
    vstd::arithmetic::div_mod::lemma_mod_bound(i, sc);
    vstd::arithmetic::div_mod::lemma_fundamental_div_mod(j, sc);
    vstd::arithmetic::div_mod::lemma_mod_bound(j, sc);
    let g1 = i / sc;
    let s1 = i % sc;
    let g2 = j / sc;
    let s2 = j % sc;
    vstd::arithmetic::div_mod::lemma_div_pos_is_pos(i, sc);
    vstd::arithmetic::div_mod::lemma_div_pos_is_pos(j, sc);
    assert(keys.len() * sc == sc * keys.len()) by (nonlinear_arith);
    vstd::arithmetic::div_mod::lemma_multiply_divide_lt(i, sc, keys.len() as int);
    vstd::arithmetic::div_mod::lemma_multiply_divide_lt(j, sc, keys.len() as int);
    assert(0 <= g1 < keys.len());
    assert(0 <= g2 < keys.len());
    assert(plan_entry(plan, segment_count, g1, s1) == plan[i]);
    assert(plan_entry(plan, segment_count, g2, s2) == plan[j]);
    assert(keys[g1] == keys[g2]);
    if g1 < g2 {
        assert(keys[g1] != keys[g2]);
    }
    if g2 < g1 {
        assert(keys[g2] != keys[g1]);
    }
    assert(g1 == g2 && s1 == s2);
}

/// Whether the resolved pairing knows no detector of this name.
pub open spec fn unknown_detector(dcs: Seq<(String, String)>, name: Seq<char>) -> bool {
    forall|l: int| 0 <= l < dcs.len() ==> (#[trigger] dcs[l]).0@ != name
}

/// Whether some requested detector name is unknown to the resolved pairing.
pub open spec fn some_requested_unknown(dcs: Seq<(String, String)>, names: Seq<String>) -> bool {
    exists|i: int| 0 <= i < names.len() && unknown_detector(dcs, (#[trigger] names[i])@)
}

/// Whether the resolved pairing maps a detector of this name to a chunker
/// of this name.
pub open spec fn resolved_pair_for(
    dcs: Seq<(String, String)>,
    name: Seq<char>,
    chunker: Seq<char>,
) -> bool {
    exists|k: int|
        0 <= k < dcs.len() && (#[trigger] dcs[k]).0@ == name && dcs[k].1@ == chunker
}

/// Pairs each requested detector name with its resolved chunker, in request
/// order. A name the resolved map does not know is a configuration error.
#[verifier::loop_isolation(false)]
pub fn resolve_requested(resolved: &ResolvedDetectorMap, detector_names: &Vec<String>) -> (r:
    Result<Vec<(String, String)>, ErrorKind>)
    ensures
        match r {
            Ok(pairs) => {
                &&& pairs@.len() == detector_names@.len()
                &&& forall|i: int|
                    0 <= i < pairs@.len() ==> (#[trigger] pairs@[i]).0@ == detector_names@[i]@
                &&& forall|i: int|
                    0 <= i < pairs@.len() ==> resolved_pair_for(
                        resolved.detector_chunkers@,
                        detector_names@[i]@,
                        (#[trigger] pairs@[i]).1@,
                    )
            },
            Err(k) => k == ErrorKind::Config && some_requested_unknown(
                resolved.detector_chunkers@,
                detector_names@,
            ),
        },
{
    let mut pairs: Vec<(String, String)> = Vec::new();
    let mut i: usize = 0;
    while i < detector_names.len()
        invariant
            i <= detector_names@.len(),
            pairs@.len() == i,
            forall|l: int|
                0 <= l < i ==> (#[trigger] pairs@[l]).0@ == detector_names@[l]@,
            forall|l: int|
                0 <= l < i ==> resolved_pair_for(
                    resolved.detector_chunkers@,
                    detector_names@[l]@,
                    (#[trigger] pairs@[l]).1@,
                ),
        decreases detector_names@.len() - i,
    {
        let name = &detector_names[i];
        let mut hit: Option<usize> = None;
        let mut k: usize = 0;
        while k < resolved.detector_chunkers.len()
            invariant
                k <= resolved.detector_chunkers@.len(),
                match hit {
                    Option::Some(h) => h < resolved.detector_chunkers@.len()
                        && resolved.detector_chunkers@[h as int].0@ == name@,
                    Option::None => forall|l: int|
                        0 <= l < k ==> (#[trigger] resolved.detector_chunkers@[l]).0@ != name@,
                },
            decreases resolved.detector_chunkers@.len() - k,
        {
            if hit.is_none() && resolved.detector_chunkers[k].0 == *name {
                hit = Some(k);
            }
            k = k + 1;
        }
        match hit {
            Option::Some(h) => {
                pairs.push((name.clone(), resolved.detector_chunkers[h].1.clone()));
            },
            Option::None => {
                return Err(ErrorKind::Config);
            },
        }
        i = i + 1;
    }
    Ok(pairs)
}

/// One detector's outcome in a detection phase: its name and either its
/// findings, concatenated over all segments in segment order, or the error
/// kind of its first failed call.
#[derive(Debug)]
pub struct DetectorReport {
    pub detector: String,
    pub outcome: Result<Vec<DetectionResult>, ErrorKind>,
}

/// The merged outcome of one detection phase: one report per requested
/// detector, in request order.
#[derive(Debug)]
pub struct DetectionPhase {
    pub reports: Vec<DetectorReport>,
}

/// Whether any of a detector's per-segment calls failed.
pub open spec fn row_failed(row: Seq<Result<Vec<DetectionResult>, BackendError>>) -> bool {
    exists|s: int| 0 <= s < row.len() && (#[trigger] row[s]) is Err
}

/// A detector's findings concatenated over its segments, in segment order.
pub open spec fn row_items(row: Seq<Result<Vec<DetectionResult>, BackendError>>) -> Seq<
    DetectionResult,
>
    decreases row.len(),
{
    if row.len() == 0 {
        Seq::empty()
    } else {
        row_items(row.drop_last()) + match row.last() {
            Ok(v) => v@,
            Err(_) => Seq::empty(),
        }
    }
}

/// The error kind of the first failed call of a row (arbitrary when none
/// failed).
pub open spec fn first_error_kind(row: Seq<Result<Vec<DetectionResult>, BackendError>>) -> ErrorKind
    decreases row.len(),
{
    if row.len() == 0 {
        ErrorKind::DetectionTotalFailure
    } else {
        match row[0] {
            Err(e) => backend_error_kind(e),
            Ok(_) => first_error_kind(row.drop_first()),
        }
    }
}

/// The first failed call determines the kind reported for the row.
proof fn lemma_first_error_kind(row: Seq<Result<Vec<DetectionResult>, BackendError>>, s: int, e: BackendError)
    requires
        0 <= s < row.len(),
        row[s] == Result::<Vec<DetectionResult>, BackendError>::Err(e),
        forall|l: int| 0 <= l < s ==> !((#[trigger] row[l]) is Err),
    ensures
        first_error_kind(row) == backend_error_kind(e),
    decreases s,
{
    if s == 0 {
    } else {
        assert(row[0] is Ok);
        assert(row.drop_first()[s - 1] == row[s]);
        assert forall|l: int| 0 <= l < s - 1 implies !((#[trigger] row.drop_first()[l]) is Err) by {
            assert(row.drop_first()[l] == row[l + 1]);
        }
        lemma_first_error_kind(row.drop_first(), s - 1, e);
    }
}

/// Merges the per-call outcomes of one detection phase back into
/// per-detector reports.
///
/// `outcomes[d][s]` is what detector `d`'s call on segment `s` returned. A
/// detector whose calls all succeeded reports its findings concatenated in
/// segment order; one with a failed call reports the kind of its first
/// failure, while the other detectors' results are still returned. Only
/// when every requested detector failed does the whole phase fail, with
/// `DetectionTotalFailure`.
#[verifier::loop_isolation(false)]
pub fn aggregate_detections(
    detectors: &Vec<String>,
    outcomes: &Vec<Vec<Result<Vec<DetectionResult>, BackendError>>>,
) -> (r: Result<DetectionPhase, ErrorKind>)
    requires
        outcomes@.len() == detectors@.len(),
    ensures
        match r {
            Ok(phase) => {
                &&& detectors@.len() == 0 || exists|d: int|
                    0 <= d < outcomes@.len() && !row_failed((#[trigger] outcomes@[d])@)
                &&& phase.reports@.len() == detectors@.len()
                &&& forall|d: int|
                    0 <= d < detectors@.len() ==> (#[trigger] phase.reports@[d]).detector@
                        == detectors@[d]@
                &&& forall|d: int|
                    0 <= d < detectors@.len() ==> match (#[trigger] phase.reports@[d]).outcome {
                        Ok(rs) => !row_failed(outcomes@[d]@) && rs@ == row_items(outcomes@[d]@),
                        Err(k) => row_failed(outcomes@[d]@) && k == first_error_kind(
                            outcomes@[d]@,
                        ),
                    }
            },
            Err(k) => {
                &&& k == ErrorKind::DetectionTotalFailure
                &&& detectors@.len() > 0
                &&& forall|d: int| 0 <= d < outcomes@.len() ==> row_failed((#[trigger] outcomes@[d])@)
            },
        },
{
    let mut reports: Vec<DetectorReport> = Vec::new();
    let mut any_ok = false;
    let mut d: usize = 0;
    while d < detectors.len()
        invariant
            d <= detectors@.len(),
            reports@.len() == d,
            any_ok <==> exists|e: int| 0 <= e < d && !row_failed((#[trigger] outcomes@[e])@),
            forall|e: int|
                0 <= e < d ==> (#[trigger] reports@[e]).detector@ == detectors@[e]@,
            forall|e: int|
                0 <= e < d ==> match (#[trigger] reports@[e]).outcome {
                    Ok(rs) => !row_failed(outcomes@[e]@) && rs@ == row_items(outcomes@[e]@),
                    Err(k) => row_failed(outcomes@[e]@) && k == first_error_kind(outcomes@[e]@),
                },
        decreases detectors@.len() - d,
    {
        let row = &outcomes[d];
        let mut failure: Option<ErrorKind> = None;
        let mut s: usize = 0;
        while s < row.len()
            invariant
                s <= row@.len(),
                match failure {
                    Option::Some(k) => row_failed(row@) && k == first_error_kind(row@),
                    Option::None => forall|l: int| 0 <= l < s ==> !((#[trigger] row@[l]) is Err),
                },
            decreases row@.len() - s,
        {
            if failure.is_none() {
                match &row[s] {
                    Ok(_) => {},
                    Err(e) => {
                        proof {
                            lemma_first_error_kind(row@, s as int, *e);
                        }
                        failure = Some(kind_of_backend_error(*e));
                    },
                }
            }
            s = s + 1;
        }
        let outcome: Result<Vec<DetectionResult>, ErrorKind> = match failure {
            Some(k) => Err(k),
            None => {
                any_ok = true;
                let mut acc: Vec<DetectionResult> = Vec::new();
                let mut s2: usize = 0;
                while s2 < row.len()
                    invariant
                        s2 <= row@.len(),
                        forall|l: int| 0 <= l < row@.len() ==> !((#[trigger] row@[l]) is Err),
                        acc@ == row_items(row@.take(s2 as int)),
                    decreases row@.len() - s2,
                {
                    proof {
                        assert(row@.take((s2 + 1) as int).drop_last() =~= row@.take(s2 as int));
                        assert(row@.take((s2 + 1) as int).last() == row@[s2 as int]);
                    }
                    match &row[s2] {
                        Ok(v) => {
                            let mut t: usize = 0;
                            while t < v.len()
                                invariant
                                    t <= v@.len(),
                                    row@[s2 as int] == Result::<
                                        Vec<DetectionResult>,
                                        BackendError,
                                    >::Ok(*v),
                                    acc@ == row_items(row@.take(s2 as int)) + v@.take(t as int),
                                decreases v@.len() - t,
                            {
                                acc.push(v[t].duplicate());
                                proof {
                                    assert(v@.take((t + 1) as int) =~= v@.take(t as int).push(
                                        v@[t as int],
                                    ));
                                    assert(acc@ =~= row_items(row@.take(s2 as int)) + v@.take(
                                        (t + 1) as int,
                                    ));
                                }
                                t = t + 1;
                            }
                            proof {
                                assert(v@.take(v@.len() as int) =~= v@);
                                assert(acc@ == row_items(row@.take((s2 + 1) as int)));
                            }
                        },
                        Err(_) => {
                            proof {
                                assert(false);
                            }
                        },
                    }
                    s2 = s2 + 1;
                }
                proof {
                    assert(row@.take(row@.len() as int) =~= row@);
                }
                Ok(acc)
            },
        };
        reports.push(DetectorReport { detector: detectors[d].clone(), outcome });
        d = d + 1;
    }
    if !any_ok && detectors.len() > 0 {
        return Err(ErrorKind::DetectionTotalFailure);
    }
    Ok(DetectionPhase { reports })
}

/// Whether a successful report holds a finding whose score lies strictly
/// above the policy threshold (in thousandths); a failed report flags
/// nothing.
pub open spec fn report_flagged(rep: DetectorReport, threshold: u32) -> bool {
    match rep.outcome {
        Ok(rs) => exists|i: int| 0 <= i < rs@.len() && (#[trigger] rs@[i]).score > threshold,
        Err(_) => false,
    }
}

/// Whether any detector of the phase flagged content strictly above the
/// policy threshold.
pub open spec fn phase_flagged(phase: DetectionPhase, threshold: u32) -> bool {
    exists|d: int|
        0 <= d < phase.reports@.len() && report_flagged(#[trigger] phase.reports@[d], threshold)
}

/// Whether some, possibly all, detectors of the phase failed.
pub open spec fn phase_partial_failure(phase: DetectionPhase) -> bool {
    exists|d: int| 0 <= d < phase.reports@.len() && (#[trigger] phase.reports@[d]).outcome is Err
}

/// Decides the short-circuit flag: whether any detector of the phase
/// reported a finding strictly above the policy threshold.
#[verifier::loop_isolation(false)]
pub fn any_flagged(phase: &DetectionPhase, threshold: u32) -> (r: bool)
    ensures
        r == phase_flagged(*phase, threshold),
{
    let mut flagged = false;
    let mut d: usize = 0;
    while d < phase.reports.len()
        invariant
            d <= phase.reports@.len(),
            flagged <==> exists|e: int|
                0 <= e < d && report_flagged(#[trigger] phase.reports@[e], threshold),
        decreases phase.reports@.len() - d,
    {
        match &phase.reports[d].outcome {
            Ok(rs) => {
                let mut i: usize = 0;
                let mut hit = false;
                while i < rs.len()
                    invariant
                        i <= rs@.len(),
                        hit <==> exists|l: int| 0 <= l < i && (#[trigger] rs@[l]).score > threshold,
                    decreases rs@.len() - i,
                {
                    if rs[i].score > threshold {
                        hit = true;
                    }
                    i = i + 1;
                }
                if hit {
                    flagged = true;
                }
            },
            Err(_) => {},
        }
        d = d + 1;
    }
    flagged
}

/// Reports the status of a completed detection phase: a partial-failure
/// marker when at least one detector failed, nothing when all succeeded.
#[verifier::loop_isolation(false)]
pub fn detection_status(phase: &DetectionPhase) -> (r: Option<ErrorKind>)
    ensures
        match r {
            Some(k) => k == ErrorKind::DetectionPartialFailure && phase_partial_failure(*phase),
            None => !phase_partial_failure(*phase),
        },
{
    let mut failed = false;
    let mut d: usize = 0;
    while d < phase.reports.len()
        invariant
            d <= phase.reports@.len(),
            failed <==> exists|e: int| 0 <= e < d && (#[trigger] phase.reports@[e]).outcome is Err,
        decreases phase.reports@.len() - d,
    {
        if phase.reports[d].outcome.is_err() {
            failed = true;
        }
        d = d + 1;
    }
    if failed {
        Some(ErrorKind::DetectionPartialFailure)
    } else {
        None
    }
}

/// The laid-out work of one detection phase.
#[derive(Debug)]
pub struct DetectionPlan {
    /// Each requested detector with its resolved chunker, in request order.
    pub pairs: Vec<(String, String)>,
    /// The detectors grouped by chunker, keys in first-seen order.
    pub groups: Vec<(String, Vec<String>)>,
    /// One chunk call per (chunker, segment).
    pub chunk_calls: Vec<ChunkCall>,
}

/// Plans one detection phase: resolves the requested detectors, groups them
/// by chunker, and lays out one chunk call per (chunker, segment).
pub fn plan_detection(
    resolved: &ResolvedDetectorMap,
    detector_names: &Vec<String>,
    segment_count: usize,
) -> (r: Result<DetectionPlan, ErrorKind>)
    ensures
        match r {
            Ok(plan) => {
                &&& plan.pairs@.len() == detector_names@.len()
                &&& forall|i: int|
                    0 <= i < plan.pairs@.len() ==> (#[trigger] plan.pairs@[i]).0@
                        == detector_names@[i]@
                &&& forall|i: int|
                    0 <= i < plan.pairs@.len() ==> resolved_pair_for(
                        resolved.detector_chunkers@,
                        detector_names@[i]@,
                        (#[trigger] plan.pairs@[i]).1@,
                    )
                &&& buckets_of(plan.groups@, pair_views(plan.pairs@))
                &&& plan_matches(plan.chunk_calls@, bucket_keys(plan.groups@), segment_count as int)
            },
            Err(k) => k == ErrorKind::Config && some_requested_unknown(
                resolved.detector_chunkers@,
                detector_names@,
            ),
        },
{
    let pairs = match resolve_requested(resolved, detector_names) {
        Ok(pairs) => pairs,
        Err(k) => {
            return Err(k);
        },
    };
    let groups = group_pairs(&pairs);
    let chunk_calls = plan_chunk_calls(&groups, segment_count);
    Ok(DetectionPlan { pairs, groups, chunk_calls })
}

} // verus!
