use cms_tools::{
    DetailedSubmission, File, ScoreDetail, Submission, SubmissionList, Testcase, MAX_SCORE,
    TIME_BOUND,
};

fn sub(id: usize, score: Option<u32>) -> Submission {
    Submission {
        files: vec![File { name: format!("sol{}.cpp", id), digest: format!("d{}", id) }],
        compilation_outcome: Some(String::from("ok")),
        task_id: 7,
        timestamp: 1000 + id as u64,
        evaluation_outcome: Some(String::from("ok")),
        score,
        id,
    }
}

fn list(subs: Vec<Submission>) -> SubmissionList {
    SubmissionList { submissions: subs, success: 1 }
}

fn case(time: u64, memory: u64) -> Testcase {
    Testcase {
        text: String::from("Output is correct"),
        outcome: String::from("1.0"),
        time,
        idx: None,
        memory,
    }
}

fn detail(score_details: Option<Vec<ScoreDetail>>) -> DetailedSubmission {
    DetailedSubmission {
        files: vec![],
        compilation_outcome: None,
        task_id: 7,
        language: Some(String::from("C++17 / g++")),
        score_details,
        timestamp: 1000,
        compilation_stderr: None,
        compilation_time: Some(120000),
        evaluation_outcome: None,
        score: Some(MAX_SCORE),
        compilation_stdout: None,
        success: 1,
        id: 1,
        compilation_memory: Some(1 << 20),
    }
}

#[test]
fn scenario_a_best_and_last() {
    let l = list(vec![sub(1, Some(6000)), sub(2, Some(10000)), sub(3, Some(10000))]);
    assert_eq!(l.best_score(), 10000);
    assert_eq!(l.get_last_high().unwrap().id, 3);
}

#[test]
fn scenario_b_fastest_picks_lower_time() {
    let l = list(vec![sub(2, Some(10000)), sub(3, Some(10000))]);
    let times = vec![Some(800000), Some(500000)];
    assert_eq!(l.get_fastest_high(&times).unwrap().id, 3);
}

#[test]
fn scenario_c_empty_list_has_no_result() {
    let l = list(vec![]);
    assert_eq!(l.best_score(), 0);
    assert!(l.get_last_high().is_none());
    assert!(l.get_fastest_high(&vec![]).is_none());
    assert!(l.tie_set().is_empty());
}

#[test]
fn best_score_stays_in_range() {
    let l = list(vec![sub(1, Some(0)), sub(2, None), sub(3, Some(MAX_SCORE)), sub(4, Some(4250))]);
    assert_eq!(l.best_score(), MAX_SCORE);
    assert!(l.best_score() <= MAX_SCORE);
    let partial = list(vec![sub(1, Some(3333)), sub(2, None), sub(3, Some(2500))]);
    assert_eq!(partial.best_score(), 3333);
}

#[test]
fn best_score_skips_absent_scores() {
    let l = list(vec![sub(1, None), sub(2, None)]);
    assert_eq!(l.best_score(), 0);
    assert!(l.get_last_high().is_none());
    assert!(l.get_fastest_high(&vec![Some(10), Some(20)]).is_none());
}

#[test]
fn last_high_takes_highest_index_among_ties() {
    let l = list(vec![
        sub(1, Some(10000)),
        sub(2, Some(5000)),
        sub(3, Some(10000)),
        sub(4, Some(10000)),
        sub(5, Some(7000)),
        sub(6, None),
    ]);
    assert_eq!(l.get_last_high().unwrap().id, 4);
}

#[test]
fn last_high_with_all_zero_scores() {
    let l = list(vec![sub(1, Some(0)), sub(2, None), sub(3, Some(0))]);
    assert_eq!(l.get_last_high().unwrap().id, 3);
}

#[test]
fn last_high_stops_at_score_above_maximum() {
    let l = list(vec![sub(1, Some(5000)), sub(2, Some(20000)), sub(3, Some(30000))]);
    assert_eq!(l.get_last_high().unwrap().id, 2);
}

#[test]
fn fastest_high_equal_times_keep_earliest() {
    let l = list(vec![sub(1, Some(10000)), sub(2, Some(10000)), sub(3, Some(10000))]);
    let times = vec![Some(700000), Some(300000), Some(300000)];
    assert_eq!(l.get_fastest_high(&times).unwrap().id, 2);
}

#[test]
fn fastest_high_ignores_lower_scores_and_missing_times() {
    let l = list(vec![sub(1, Some(9000)), sub(2, Some(10000)), sub(3, Some(10000)), sub(4, Some(10000))]);
    let times = vec![Some(1), None, Some(900000), Some(400000)];
    assert_eq!(l.get_fastest_high(&times).unwrap().id, 4);
}

#[test]
fn fastest_high_needs_time_under_bound() {
    let l = list(vec![sub(1, Some(10000)), sub(2, Some(10000))]);
    assert!(l.get_fastest_high(&vec![Some(TIME_BOUND), None]).is_none());
    assert_eq!(l.get_fastest_high(&vec![Some(TIME_BOUND), Some(TIME_BOUND - 1)]).unwrap().id, 2);
}

#[test]
fn resolution_is_repeatable() {
    let l = list(vec![sub(1, Some(4000)), sub(2, Some(10000)), sub(3, Some(10000)), sub(4, Some(10000))]);
    let times = vec![None, Some(5000), Some(2000), Some(2000)];
    assert_eq!(l.best_score(), l.best_score());
    assert_eq!(l.get_last_high().unwrap().id, l.get_last_high().unwrap().id);
    assert_eq!(l.get_fastest_high(&times).unwrap().id, l.get_fastest_high(&times).unwrap().id);
    assert_eq!(l.get_fastest_high(&times).unwrap().id, 3);
    assert_eq!(l.tie_set(), l.tie_set());
}

#[test]
fn tie_set_lists_indices_at_best_score() {
    let l = list(vec![sub(1, Some(10000)), sub(2, Some(5000)), sub(3, None), sub(4, Some(10000))]);
    assert_eq!(l.tie_set(), vec![0, 3]);
}

#[test]
fn detail_time_and_memory_are_maxima() {
    let d = detail(Some(vec![
        ScoreDetail { testcases: vec![case(1200, 4096), case(800, 9000)], score: 4000, max_score: 4000, idx: Some(1) },
        ScoreDetail { testcases: vec![], score: 0, max_score: 1000, idx: Some(2) },
        ScoreDetail { testcases: vec![case(3500, 2048)], score: 5000, max_score: 5000, idx: Some(3) },
    ]));
    assert_eq!(d.get_time(), Some(3500));
    assert_eq!(d.get_memory(), Some(9000));
}

#[test]
fn detail_without_scores_has_no_time() {
    let d = detail(None);
    assert_eq!(d.get_time(), None);
    assert_eq!(d.get_memory(), None);
    let empty = detail(Some(vec![]));
    assert_eq!(empty.get_time(), Some(0));
    assert_eq!(empty.get_memory(), Some(0));
}
