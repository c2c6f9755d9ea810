use vstd::prelude::*;

use crate::model::{Submission, SubmissionList, MAX_SCORE, TIME_BOUND};

verus! {

/// The score a submission contributes to a maximum: its score if present, else 0.
pub open spec fn score_or_zero(s: Submission) -> u32 {
    match s.score {
        Some(x) => x,
        None => 0,
    }
}

/// The maximum of the present scores of `s`, or 0 when none is present.
pub open spec fn best_score_of(s: Seq<Submission>) -> u32
    decreases s.len(),
{
    if s.len() == 0 {
        0
    } else {
        let rest = best_score_of(s.drop_last());
        let x = score_or_zero(s.last());
        if x > rest {
            x
        } else {
            rest
        }
    }
}

/// A present score above the maximum: nothing can beat it, so a scan may stop there.
pub open spec fn over_max(s: Seq<Submission>, j: int) -> bool {
    s[j].score matches Some(x) && x > MAX_SCORE
}

/// `k` is the submission that the last-at-best policy picks in `s`: the first one
/// above the maximum score if there is such a one, else the last one whose score
/// equals the best score.
pub open spec fn is_last_high(s: Seq<Submission>, k: int) -> bool {
    &&& 0 <= k < s.len()
    &&& if exists|j: int| 0 <= j < s.len() && over_max(s, j) {
        &&& over_max(s, k)
        &&& forall|j: int| 0 <= j < k ==> !over_max(s, j)
    } else {
        &&& s[k].score == Some(best_score_of(s))
        &&& forall|j: int| k < j < s.len() ==> s[j].score != Some(best_score_of(s))
    }
}

/// Submission `j` is at the best score and its detail gave a time under the bound.
/// `times[j]` is the longest test-case time of submission `j`, when known.
pub open spec fn is_timed_candidate(s: Seq<Submission>, times: Seq<Option<u64>>, j: int) -> bool {
    &&& 0 <= j < s.len()
    &&& j < times.len()
    &&& s[j].score == Some(best_score_of(s))
    &&& times[j] matches Some(t) && t < TIME_BOUND
}

/// `k` is the submission that the fastest-at-best policy picks: a timed candidate
/// with the smallest time, the earliest one among equal times.
pub open spec fn is_fastest_high(s: Seq<Submission>, times: Seq<Option<u64>>, k: int) -> bool {
    &&& is_timed_candidate(s, times, k)
    &&& forall|j: int|
        is_timed_candidate(s, times, j) ==> {
            &&& times[k]->0 <= times[j]->0
            &&& j < k ==> times[k]->0 < times[j]->0
        }
}

/// Every present score of `s` lies in the valid range, `0 ..= MAX_SCORE`.
pub open spec fn scores_valid(s: Seq<Submission>) -> bool {
    forall|i: int| 0 <= i < s.len() ==> score_or_zero(s[i]) <= MAX_SCORE
}

/// The best score is the maximum of the present scores: no present score exceeds
/// it, some submission carries it when any score is present, and it is 0 when no
/// score is present.
pub proof fn lemma_best_score_is_maximum(s: Seq<Submission>)
    ensures
        forall|i: int| 0 <= i < s.len() ==> score_or_zero(s[i]) <= best_score_of(s),
        (exists|i: int| 0 <= i < s.len() && s[i].score is Some) ==> exists|j: int|
            0 <= j < s.len() && s[j].score == Some(best_score_of(s)),
        (forall|i: int| 0 <= i < s.len() ==> s[i].score is None) ==> best_score_of(s) == 0,
    decreases s.len(),
{
    if s.len() > 0 {
        let t = s.drop_last();
        lemma_best_score_is_maximum(t);
        assert forall|i: int| 0 <= i < t.len() implies t[i] == s[i] by {}
        let b = best_score_of(s);
        if exists|i: int| 0 <= i < s.len() && s[i].score is Some {
            if s.last().score is Some && score_or_zero(s.last()) >= best_score_of(t) {
                assert(s[s.len() - 1].score == Some(b));
            } else {
                if s.last().score is None {
                    let i = choose|i: int| 0 <= i < s.len() && s[i].score is Some;
                    assert(i < t.len());
                }
                let j = choose|j: int| 0 <= j < t.len() && t[j].score == Some(best_score_of(t));
                assert(s[j].score == Some(b));
            }
        }
    }
}

/// No list of valid submissions has a best score above the maximum, and the empty
/// list has best score 0.
pub proof fn lemma_best_score_bounded(s: Seq<Submission>)
    requires
        scores_valid(s),
    ensures
        best_score_of(s) <= MAX_SCORE,
        best_score_of(Seq::<Submission>::empty()) == 0,
{
    lemma_best_score_is_maximum(s);
    if exists|i: int| 0 <= i < s.len() && s[i].score is Some {
        let j = choose|j: int| 0 <= j < s.len() && s[j].score == Some(best_score_of(s));
        assert(score_or_zero(s[j]) <= MAX_SCORE);
    }
}

/// On valid submissions the last-at-best policy picks the highest-indexed
/// submission among those sharing the maximum score.
pub proof fn lemma_last_high_is_highest_index(s: Seq<Submission>, k: int)
    requires
        scores_valid(s),
    ensures
        is_last_high(s, k) <==> {
            &&& 0 <= k < s.len()
            &&& s[k].score == Some(best_score_of(s))
            &&& forall|j: int| k < j < s.len() ==> s[j].score != Some(best_score_of(s))
        },
        is_last_high(s, k) ==> forall|j: int|
            0 <= j < s.len() ==> score_or_zero(s[j]) <= score_or_zero(s[k]),
{
    assert(!exists|j: int| 0 <= j < s.len() && over_max(s, j)) by {
        assert forall|j: int| 0 <= j < s.len() implies !over_max(s, j) by {
            assert(score_or_zero(s[j]) <= MAX_SCORE);
        }
    }
    lemma_best_score_is_maximum(s);
}

/// Each resolution policy determines its pick: two picks from the same list (and,
/// for the fastest-at-best policy, the same times) are the same submission, so
/// resolving twice gives the same result.
pub proof fn lemma_resolution_deterministic(
    s: Seq<Submission>,
    times: Seq<Option<u64>>,
    k1: int,
    k2: int,
)
    ensures
        is_last_high(s, k1) && is_last_high(s, k2) ==> k1 == k2,
        is_fastest_high(s, times, k1) && is_fastest_high(s, times, k2) ==> k1 == k2,
{
    if is_last_high(s, k1) && is_last_high(s, k2) && k1 != k2 {
        let (a, b) = if k1 < k2 {
            (k1, k2)
        } else {
            (k2, k1)
        };
        if exists|j: int| 0 <= j < s.len() && over_max(s, j) {
            assert(!over_max(s, a));
        } else {
            assert(s[b].score != Some(best_score_of(s)));
        }
    }
    if is_fastest_high(s, times, k1) && is_fastest_high(s, times, k2) && k1 != k2 {
        assert(is_timed_candidate(s, times, k1));
        assert(is_timed_candidate(s, times, k2));
    }
}

impl SubmissionList {
    /// The best score achieved among all submissions (0 when there is none).
    pub fn best_score(&self) -> (r: u32)
        ensures
            r == best_score_of(self.submissions@),
    {
        let mut res: u32 = 0;
        let mut i: usize = 0;
        while i < self.submissions.len()
            invariant
                i <= self.submissions@.len(),
                res == best_score_of(self.submissions@.take(i as int)),
            decreases self.submissions@.len() - i,
        {
            proof {
                assert(self.submissions@.take(i + 1).drop_last() =~= self.submissions@.take(i as int));
            }
            if let Some(score) = self.submissions[i].score {
                if score > res {
                    res = score;
                }
            }
            i = i + 1;
        }
        proof {
            assert(self.submissions@.take(i as int) =~= self.submissions@);
        }
        res
    }

    /// The last submission among those with the highest score. A score above the
    /// maximum ends the scan and is picked at once. `None` when no submission has
    /// a score.
    pub fn get_last_high(&self) -> (r: Option<&Submission>)
        ensures
            r is None <==> forall|i: int|
                0 <= i < self.submissions@.len() ==> self.submissions@[i].score is None,
            r matches Some(x) ==> exists|k: int|
                is_last_high(self.submissions@, k) && *x == self.submissions@[k],
    {
        let ghost s = self.submissions@;
        let n = self.submissions.len();
        let mut best: u32 = 0;
        let mut best_ind: usize = n;
        let mut i: usize = 0;
        while i < n
            invariant
                n == s.len(),
                s == self.submissions@,
                i <= n,
                best == best_score_of(s.take(i as int)),
                best_ind == n || best_ind < i,
                best_ind == n ==> best == 0 && forall|j: int| 0 <= j < i ==> s[j].score is None,
                best <= MAX_SCORE,
                best_ind < n ==> s[best_ind as int].score == Some(best),
                best_ind < n ==> forall|j: int| best_ind < j < i ==> s[j].score != Some(best),
                forall|j: int| 0 <= j < i ==> !over_max(s, j),
            decreases n - i,
        {
            proof {
                assert(s.take(i + 1).drop_last() =~= s.take(i as int));
            }
            if let Some(score) = self.submissions[i].score {
                if score >= best {
                    best = score;
                    best_ind = i;
                    if score > MAX_SCORE {
                        assert(over_max(s, i as int));
                        assert(is_last_high(s, i as int));
                        return Some(&self.submissions[i]);
                    }
                }
            }
            i = i + 1;
        }
        proof {
            assert(s.take(i as int) =~= s);
        }
        if best_ind == n {
            return None;
        }
        assert(is_last_high(s, best_ind as int));
        Some(&self.submissions[best_ind])
    }

    /// The tie set: the indices, in increasing order, of the submissions whose
    /// score equals the best score. These are the submissions whose details the
    /// fastest-at-best policy needs.
    pub fn tie_set(&self) -> (r: Vec<usize>)
        ensures
            forall|k: int|
                0 <= k < r@.len() ==> r@[k] < self.submissions@.len()
                    && self.submissions@[r@[k] as int].score == Some(best_score_of(self.submissions@)),
            forall|j: int|
                0 <= j < self.submissions@.len() && self.submissions@[j].score == Some(
                    best_score_of(self.submissions@),
                ) ==> r@.contains(j as usize),
            forall|a: int, b: int| 0 <= a < b < r@.len() ==> r@[a] < r@[b],
    {
        let ghost s = self.submissions@;
        let best = self.best_score();
        let mut r: Vec<usize> = Vec::new();
        let mut i: usize = 0;
        while i < self.submissions.len()
            invariant
                s == self.submissions@,
                best == best_score_of(s),
                i <= s.len(),
                forall|k: int| 0 <= k < r@.len() ==> r@[k] < i && s[r@[k] as int].score == Some(best),
                forall|j: int| 0 <= j < i && s[j].score == Some(best) ==> r@.contains(j as usize),
                forall|a: int, b: int| 0 <= a < b < r@.len() ==> r@[a] < r@[b],
            decreases s.len() - i,
        {
            if self.submissions[i].score == Some(best) {
                let ghost before = r@;
                r.push(i);
                proof {
                    assert forall|j: int| 0 <= j <= i && s[j].score == Some(best) implies r@.contains(
                        j as usize,
                    ) by {
                        if j < i {
                            let k = choose|k: int| 0 <= k < before.len() && before[k] == j as usize;
                            assert(r@[k] == j as usize);
                        } else {
                            assert(r@[r@.len() - 1] == i);
                        }
                    }
                }
            }
            i = i + 1;
        }
        r
    }

    /// The fastest submission among those with the best score. `times[i]` is the
    /// longest test-case time of submission `i`, as its details gave it, or `None`
    /// when they could not be fetched or carry no timing; only the entries of the
    /// tie set are read. A submission is picked only with a time under
    /// `TIME_BOUND`; among equal times the earliest one wins.
    pub fn get_fastest_high(&self, times: &Vec<Option<u64>>) -> (r: Option<&Submission>)
        requires
            times@.len() == self.submissions@.len(),
        ensures
            r is None <==> forall|j: int| !is_timed_candidate(self.submissions@, times@, j),
            r matches Some(x) ==> exists|k: int|
                is_fastest_high(self.submissions@, times@, k) && *x == self.submissions@[k],
    {
        let ghost s = self.submissions@;
        let best_score = self.best_score();
        let n = self.submissions.len();
        let mut best_time: u64 = TIME_BOUND;
        let mut best_ind: usize = n;
        let mut i: usize = 0;
        while i < n
            invariant
                n == s.len(),
                s == self.submissions@,
                times@.len() == n,
                best_score == best_score_of(s),
                i <= n,
                best_ind == n || best_ind < i,
                best_ind == n ==> forall|j: int| 0 <= j < i ==> !is_timed_candidate(s, times@, j),
                best_ind < n ==> is_timed_candidate(s, times@, best_ind as int)
                    && times@[best_ind as int] == Some(best_time),
                best_ind == n ==> best_time == TIME_BOUND,
                forall|j: int|
                    0 <= j < i && is_timed_candidate(s, times@, j) ==> best_time <= times@[j]->0,
                forall|j: int|
                    0 <= j < best_ind && j < i && is_timed_candidate(s, times@, j) ==> best_time
                        < times@[j]->0,
            decreases n - i,
        {
            if let Some(score) = self.submissions[i].score {
                if score == best_score {
                    if let Some(time) = times[i] {
                        if time < best_time {
                            best_time = time;
                            best_ind = i;
                        }
                    }
                }
            }
            i = i + 1;
        }
        if best_ind == n {
            return None;
        }
        assert(is_fastest_high(s, times@, best_ind as int));
        Some(&self.submissions[best_ind])
    }
}


} // verus!
