//! Client-side logic for a competitive-programming training platform: the data it
//! exchanges, the policies that pick a user's best submission for a task, and the
//! decisions of a driver that re-submits that solution under a rate limit.
//!
//! Transport (HTTP, JSON, cookies) is not part of this crate: callers fetch values,
//! hand them to the functions here and perform the actions they return.

pub mod model;
pub mod detail;
pub mod resolve;
pub mod response;
pub mod resubmit;

pub use model::{
    CheckResponse, DetailedSubmission, Failure, File, Institute, Question, RecoverResponse, Region,
    RegionList, ScoreDetail, Statement, Submission, SubmissionList, Tag, TechniqueList, Test,
    TestHead, TestList, Testcase, MAX_SCORE, TIME_BOUND,
};
pub use resubmit::{extension, Resubmission, Stage, SubmitPayload, UPLOAD_STEM};
pub use response::{check_password, check_success, user_exists_from, Session, USERNAME_TAKEN};
