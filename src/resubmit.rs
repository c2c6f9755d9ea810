use vstd::prelude::*;

use crate::model::{Failure, File, SubmissionList, MAX_SCORE};
use crate::resolve::{is_fastest_high, is_timed_candidate, lemma_resolution_deterministic};

verus! {

/// The stem of the file name under which a source is submitted; the language's
/// extension follows it.
pub const UPLOAD_STEM: &'static str = "ace.";

/// `ext` is the extension of the file name `name`: the characters after its last
/// dot, or the whole name when it has no dot.
pub open spec fn is_extension(name: Seq<char>, ext: Seq<char>) -> bool {
    &&& ext.len() <= name.len()
    &&& ext == name.subrange(name.len() - ext.len(), name.len() as int)
    &&& forall|i: int| 0 <= i < ext.len() ==> ext[i] != '.'
    &&& ext.len() == name.len() || name[name.len() - ext.len() - 1] == '.'
}

/// The extension of a file name, used as the language of a submitted source: the
/// text after the last dot, or the whole name when it has no dot.
pub fn extension(name: &str) -> (r: String)
    ensures
        is_extension(name@, r@),
{
    let n = name.unicode_len();
    let mut k: usize = n;
    while k > 0 && name.get_char(k - 1) != '.'
        invariant
            k <= n,
            n == name@.len(),
            forall|j: int| k <= j < n ==> name@[j] != '.',
        decreases k,
    {
        k = k - 1;
    }
    String::from_str(name.substring_char(k, n))
}

/// The standard base64 encoding (with padding) of the UTF-8 bytes of `text`.
pub uninterp spec fn base64_of(text: Seq<char>) -> Seq<char>;

/// Relies on base64::encode: the standard base64 encoding of the text's UTF-8
/// bytes, with padding; the empty text encodes to the empty string.
#[verifier::external_body]
#[allow(deprecated)]
fn encode_base64(text: &str) -> (r: String)
    ensures
        r@ == base64_of(text@),
        text@.len() == 0 ==> r@.len() == 0,
{
    base64::encode(text)
}

/// What a submission of a source file carries: the task, the name of the file
/// field that the task expects, the base64 content and the uploaded file name.
#[derive(Debug, PartialEq, Eq)]
pub struct SubmitPayload {
    pub task_name: String,
    pub field: String,
    pub data: String,
    pub filename: String,
}

impl SubmitPayload {
    /// The payload for already encoded content `data` in language `lang`: the file
    /// field is the first entry of the task's submission format, the file name is
    /// `UPLOAD_STEM` followed by `lang`. `None` when the format is empty.
    pub fn with_data(task_name: &str, submission_format: &Vec<String>, data: String, lang: &str) -> (r:
        Option<SubmitPayload>)
        ensures
            r is None <==> submission_format@.len() == 0,
            r matches Some(p) ==> {
                &&& p.task_name@ == task_name@
                &&& p.field == submission_format@[0]
                &&& p.data == data
                &&& p.filename@ == UPLOAD_STEM@ + lang@
            },
    {
        if submission_format.len() == 0 {
            return None;
        }
        let mut filename = String::from_str(UPLOAD_STEM);
        filename.append(lang);
        Some(
            SubmitPayload {
                task_name: String::from_str(task_name),
                field: submission_format[0].clone(),
                data,
                filename,
            },
        )
    }

    /// The payload that submits the source `text` in language `lang` to a task that
    /// is not output-only: as `with_data`, with the base64 encoding of `text`.
    pub fn normal(task_name: &str, submission_format: &Vec<String>, text: &str, lang: &str) -> (r:
        Option<SubmitPayload>)
        ensures
            r is None <==> submission_format@.len() == 0,
            r matches Some(p) ==> {
                &&& p.task_name@ == task_name@
                &&& p.field == submission_format@[0]
                &&& p.data@ == base64_of(text@)
                &&& p.filename@ == UPLOAD_STEM@ + lang@
            },
    {
        let data = encode_base64(text);
        SubmitPayload::with_data(task_name, submission_format, data, lang)
    }
}


/// Where the re-submission of one task stands. Each stage names what the caller
/// does next: resolve the best submission, fetch the source of its file, submit
/// that source; the last four stages are final.
#[derive(Debug, PartialEq, Eq)]
pub enum Stage {
    /// Waiting for the task's submissions and the times of their tie set.
    Resolving,
    /// Waiting for the source text of the only file of the chosen submission.
    FetchingSource { file: File },
    /// Submitting `text` in language `lang`, again after every failure, until the
    /// server accepts it.
    Submitting { text: String, lang: String },
    /// The server accepted the submission.
    Accepted,
    /// The task is not eligible: it is not solved at the maximum score, or its
    /// chosen submission does not have exactly one file.
    Skipped,
    /// No submission was picked: the task's submissions could not be listed, or
    /// none at the best score reported a time under the bound.
    Unresolved,
    /// The source of the chosen file could not be fetched.
    SourceUnavailable { failure: Failure },
}

/// The re-submission of the fastest accepted solution of one task.
pub struct Resubmission {
    pub task_name: String,
    pub stage: Stage,
    /// Submission attempts made so far, saturating at `u64::MAX`.
    pub attempts: u64,
}

impl Resubmission {
    /// Starts the re-submission of `task_name`, whose recorded score for the user
    /// is `task_score` (hundredths of a point). Only a task solved at the maximum
    /// score is eligible; any other is skipped at once.
    pub fn new(task_name: String, task_score: u32) -> (r: Resubmission)
        ensures
            r.task_name == task_name,
            r.attempts == 0,
            r.stage == if task_score == MAX_SCORE {
                Stage::Resolving
            } else {
                Stage::Skipped
            },
    {
        let stage = if task_score == MAX_SCORE {
            Stage::Resolving
        } else {
            Stage::Skipped
        };
        Resubmission { task_name, stage, attempts: 0 }
    }

    /// Takes the task's submissions and the times of their details (as
    /// `SubmissionList::get_fastest_high` reads them) and picks the fastest
    /// submission at the best score. One with exactly one file moves on to fetching
    /// that file's source; one with more files is skipped without submitting;
    /// without a pick the stage becomes `Unresolved`. Outside `Resolving` nothing
    /// changes.
    pub fn on_resolved(&mut self, list: &SubmissionList, times: &Vec<Option<u64>>)
        requires
            times@.len() == list.submissions@.len(),
        ensures
            final(self).task_name == old(self).task_name,
            final(self).attempts == old(self).attempts,
            !(old(self).stage is Resolving) ==> final(self).stage == old(self).stage,
            old(self).stage is Resolving && (forall|j: int|
                !is_timed_candidate(list.submissions@, times@, j)) ==> final(self).stage
                == Stage::Unresolved,
            forall|k: int|
                old(self).stage is Resolving && is_fastest_high(list.submissions@, times@, k)
                    ==> final(self).stage == if list.submissions@[k].files@.len() == 1 {
                    (Stage::FetchingSource { file: list.submissions@[k].files@[0] })
                } else {
                    Stage::Skipped
                },
    {
        if !matches!(self.stage, Stage::Resolving) {
            return;
        }
        match list.get_fastest_high(times) {
            None => {
                self.stage = Stage::Unresolved;
            },
            Some(best) => {
                let ghost k = choose|k: int|
                    is_fastest_high(list.submissions@, times@, k) && *best == list.submissions@[k];
                proof {
                    assert forall|k2: int| is_fastest_high(list.submissions@, times@, k2) implies k2
                        == k by {
                        lemma_resolution_deterministic(list.submissions@, times@, k, k2);
                    }
                }
                if best.files.len() == 1 {
                    self.stage = Stage::FetchingSource { file: best.files[0].clone() };
                } else {
                    self.stage = Stage::Skipped;
                }
            },
        }
    }

    /// Records that the task's submissions could not be listed: no submission can
    /// be picked. Outside `Resolving` nothing changes.
    pub fn on_list_failed(&mut self)
        ensures
            final(self).task_name == old(self).task_name,
            final(self).attempts == old(self).attempts,
            final(self).stage == if old(self).stage is Resolving {
                Stage::Unresolved
            } else {
                old(self).stage
            },
    {
        if matches!(self.stage, Stage::Resolving) {
            self.stage = Stage::Unresolved;
        }
    }

    /// Takes the fetched source text of the chosen file, or the failure of the
    /// fetch. With the text the stage moves on to submitting it, in the language
    /// that the file name's extension gives; after a failure the source is
    /// unavailable. Outside `FetchingSource` nothing changes.
    pub fn on_source(&mut self, fetched: Result<String, Failure>)
        ensures
            final(self).task_name == old(self).task_name,
            final(self).attempts == old(self).attempts,
            !(old(self).stage is FetchingSource) ==> final(self).stage == old(self).stage,
            old(self).stage matches Stage::FetchingSource { file } ==> match fetched {
                Ok(text) => final(self).stage matches Stage::Submitting { text: t, lang }
                    && t == text && is_extension(file.name@, lang@),
                Err(f) => final(self).stage == (Stage::SourceUnavailable { failure: f }),
            },
    {
        let lang = match &self.stage {
            Stage::FetchingSource { file } => extension(file.name.as_str()),
            _ => {
                return;
            },
        };
        match fetched {
            Ok(text) => {
                self.stage = Stage::Submitting { text, lang };
            },
            Err(f) => {
                self.stage = Stage::SourceUnavailable { failure: f };
            },
        }
    }

    /// Takes the outcome of one submission attempt. Acceptance ends the
    /// re-submission; any failure leaves the same source to be submitted again.
    /// Either way the attempt is counted. Outside `Submitting` nothing changes.
    pub fn on_submitted(&mut self, outcome: Result<(), Failure>)
        ensures
            !(old(self).stage is Submitting) ==> *final(self) == *old(self),
            old(self).stage is Submitting ==> {
                &&& final(self).task_name == old(self).task_name
                &&& final(self).attempts == if old(self).attempts == u64::MAX {
                    old(self).attempts
                } else {
                    (old(self).attempts + 1) as u64
                }
                &&& final(self).stage == if outcome is Ok {
                    Stage::Accepted
                } else {
                    old(self).stage
                }
            },
    {
        if !matches!(self.stage, Stage::Submitting { .. }) {
            return;
        }
        if self.attempts < u64::MAX {
            self.attempts = self.attempts + 1;
        }
        if outcome.is_ok() {
            self.stage = Stage::Accepted;
        }
    }
}

} // verus!
