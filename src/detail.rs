use vstd::prelude::*;

use crate::model::{DetailedSubmission, ScoreDetail, Testcase};

verus! {

/// The larger of two values.
pub open spec fn max_u64(a: u64, b: u64) -> u64 {
    if a >= b {
        a
    } else {
        b
    }
}

/// The longest time among the testcases `tcs`, or 0 when there is none.
pub open spec fn max_time_of(tcs: Seq<Testcase>) -> u64
    decreases tcs.len(),
{
    if tcs.len() == 0 {
        0
    } else {
        max_u64(max_time_of(tcs.drop_last()), tcs.last().time)
    }
}

/// The longest time among all testcases of all `subtasks`, or 0 when there is none.
pub open spec fn max_time_over(subtasks: Seq<ScoreDetail>) -> u64
    decreases subtasks.len(),
{
    if subtasks.len() == 0 {
        0
    } else {
        max_u64(max_time_over(subtasks.drop_last()), max_time_of(subtasks.last().testcases@))
    }
}

/// The largest memory use among the testcases `tcs`, or 0 when there is none.
pub open spec fn max_memory_of(tcs: Seq<Testcase>) -> u64
    decreases tcs.len(),
{
    if tcs.len() == 0 {
        0
    } else {
        max_u64(max_memory_of(tcs.drop_last()), tcs.last().memory)
    }
}

/// The largest memory use among all testcases of all `subtasks`, or 0 when there
/// is none.
pub open spec fn max_memory_over(subtasks: Seq<ScoreDetail>) -> u64
    decreases subtasks.len(),
{
    if subtasks.len() == 0 {
        0
    } else {
        max_u64(
            max_memory_over(subtasks.drop_last()),
            max_memory_of(subtasks.last().testcases@),
        )
    }
}

impl DetailedSubmission {
    /// The maximum execution time among all testcases, in microseconds; `None`
    /// when the submission carries no score details.
    pub fn get_time(&self) -> (r: Option<u64>)
        ensures
            r == match self.score_details {
                Some(sc) => Some(max_time_over(sc@)),
                None => None,
            },
    {
        match &self.score_details {
            Some(sc) => {
                let mut res: u64 = 0;
                let mut i: usize = 0;
                while i < sc.len()
                    invariant
                        i <= sc@.len(),
                        res == max_time_over(sc@.take(i as int)),
                    decreases sc@.len() - i,
                {
                    proof {
                        assert(sc@.take(i + 1).drop_last() =~= sc@.take(i as int));
                    }
                    let tcs = &sc[i].testcases;
                    let ghost before = res;
                    let mut j: usize = 0;
                    while j < tcs.len()
                        invariant
                            j <= tcs@.len(),
                            res == max_u64(before, max_time_of(tcs@.take(j as int))),
                        decreases tcs@.len() - j,
                    {
                        proof {
                            assert(tcs@.take(j + 1).drop_last() =~= tcs@.take(j as int));
                        }
                        if tcs[j].time > res {
                            res = tcs[j].time;
                        }
                        j = j + 1;
                    }
                    proof {
                        assert(tcs@.take(j as int) =~= tcs@);
                    }
                    i = i + 1;
                }
                proof {
                    assert(sc@.take(i as int) =~= sc@);
                }
                Some(res)
            },
            None => None,
        }
    }

    /// The maximum memory used among all testcases, in bytes; `None` when the
    /// submission carries no score details.
    pub fn get_memory(&self) -> (r: Option<u64>)
        ensures
            r == match self.score_details {
                Some(sc) => Some(max_memory_over(sc@)),
                None => None,
            },
    {
        match &self.score_details {
            Some(sc) => {
                let mut res: u64 = 0;
                let mut i: usize = 0;
                while i < sc.len()
                    invariant
                        i <= sc@.len(),
                        res == max_memory_over(sc@.take(i as int)),
                    decreases sc@.len() - i,
                {
                    proof {
                        assert(sc@.take(i + 1).drop_last() =~= sc@.take(i as int));
                    }
                    let tcs = &sc[i].testcases;
                    let ghost before = res;
                    let mut j: usize = 0;
                    while j < tcs.len()
                        invariant
                            j <= tcs@.len(),
                            res == max_u64(before, max_memory_of(tcs@.take(j as int))),
                        decreases tcs@.len() - j,
                    {
                        proof {
                            assert(tcs@.take(j + 1).drop_last() =~= tcs@.take(j as int));
                        }
                        if tcs[j].memory > res {
                            res = tcs[j].memory;
                        }
                        j = j + 1;
                    }
                    proof {
                        assert(tcs@.take(j as int) =~= tcs@);
                    }
                    i = i + 1;
                }
                proof {
                    assert(sc@.take(i as int) =~= sc@);
                }
                Some(res)
            },
            None => None,
        }
    }
}

} // verus!
