use vstd::prelude::*;

verus! {

/// Highest score a submission can reach, in hundredths of a point (100.00 points).
pub const MAX_SCORE: u32 = 10000;

/// Bound on a test-case time for a submission to count as fastest: 100 seconds,
/// in microseconds.
pub const TIME_BOUND: u64 = 100000000;

/// Why a request to the platform failed.
#[derive(Clone, Copy, Debug, PartialEq, Eq, Structural)]
pub enum Failure {
    /// No response came back.
    Unreachable,
    /// The response could not be parsed.
    Malformed,
    /// The server parsed the request and reported failure; this includes the
    /// rate limit on submissions, which it does not tell apart.
    Rejected,
}

/// Description of a submitted file.
#[derive(Debug, PartialEq, Eq)]
pub struct File {
    pub name: String,
    /// Content address of the file on the server.
    pub digest: String,
}

impl Clone for File {
    fn clone(&self) -> (r: Self)
        ensures
            r == *self,
    {
        File { name: self.name.clone(), digest: self.digest.clone() }
    }
}

/// A submission as listed for a task, not detailed.
pub struct Submission {
    pub files: Vec<File>,
    pub compilation_outcome: Option<String>,
    pub task_id: usize,
    /// Seconds since the Unix epoch.
    pub timestamp: u64,
    pub evaluation_outcome: Option<String>,
    /// Score in hundredths of a point; absent while the submission is not evaluated.
    pub score: Option<u32>,
    pub id: usize,
}

/// Outcome of a submission on one testcase.
pub struct Testcase {
    pub text: String,
    pub outcome: String,
    /// Execution time in microseconds.
    pub time: u64,
    pub idx: Option<String>,
    /// Memory used, in bytes.
    pub memory: u64,
}

/// Score details of a submission for one subtask.
pub struct ScoreDetail {
    pub testcases: Vec<Testcase>,
    /// Score in hundredths of a point.
    pub score: u32,
    /// Highest reachable score of the subtask, in hundredths of a point.
    pub max_score: u32,
    pub idx: Option<usize>,
}

/// Details of one submission: the listed data plus per-subtask, per-testcase results.
pub struct DetailedSubmission {
    pub files: Vec<File>,
    pub compilation_outcome: Option<String>,
    pub task_id: usize,
    pub language: Option<String>,
    /// Absent while the submission has not been judged.
    pub score_details: Option<Vec<ScoreDetail>>,
    /// Seconds since the Unix epoch.
    pub timestamp: u64,
    pub compilation_stderr: Option<String>,
    /// Compilation time in microseconds.
    pub compilation_time: Option<u64>,
    pub evaluation_outcome: Option<String>,
    /// Score in hundredths of a point.
    pub score: Option<u32>,
    pub compilation_stdout: Option<String>,
    pub success: u8,
    pub id: usize,
    pub compilation_memory: Option<u64>,
}

/// List of submissions by a user for a task, in the order the server gave them.
pub struct SubmissionList {
    pub submissions: Vec<Submission>,
    pub success: u8,
}

/// Answer to a check of a username or an email address.
pub struct CheckResponse {
    pub success: u8,
    pub error: Option<String>,
}

/// Answer to a password recovery request.
pub struct RecoverResponse {
    pub message: Option<String>,
    pub thing_type: u8,
    pub success: u8,
    pub error: Option<String>,
}

/// Institute of a user.
pub struct Institute {
    pub province: Option<String>,
    pub city: Option<String>,
    pub region: Option<String>,
    pub id: Option<u32>,
    pub name: Option<String>,
}

/// Statement digests of a task.
pub struct Statement {
    pub it: Option<String>,
}

/// A tag of a task, such as a technique or an event.
pub struct Tag {
    pub name: String,
    pub can_delete: bool,
}

/// Basic information of a test (a quiz).
pub struct TestHead {
    pub max_score: u8,
    pub name: String,
    pub description: String,
}

/// A question of a test.
pub struct Question {
    pub max_score: u8,
    pub text: String,
    pub question_type: String,
    pub choices: Option<Vec<String>>,
    pub answers: Option<Vec<(String, u32)>>,
}

/// A test, also known as a quiz.
pub struct Test {
    pub success: u8,
    pub name: String,
    pub questions: Vec<Question>,
    pub description: String,
}

/// List of tests.
pub struct TestList {
    pub tests: Vec<TestHead>,
    pub success: u8,
}

/// A region.
pub struct Region {
    pub id: usize,
    pub name: String,
}

/// List of regions.
pub struct RegionList {
    pub regions: Vec<Region>,
    pub success: u8,
}

/// List of technique tags.
pub struct TechniqueList {
    pub success: u8,
    pub tags: Vec<String>,
}

} // verus!
