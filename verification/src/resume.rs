//! Whether a transfer starts afresh, resumes or restarts.

use crate::notice::notices_of;
use crate::notice::Notice;
use crate::notice::NoticeModel;
use crate::text::decimal;
use crate::text::text_of;
use crate::text::to_decimal;
use vstd::prelude::*;

verus! {

/// How a transfer begins.
#[derive(Debug, Clone, Copy, PartialEq, Eq, Structural)]
pub enum ResumeDecision {
    /// No part file exists: write one from the start.
    Fresh,
    /// Continue the part file from this offset, its size.
    Resume(u64),
    /// A part file exists but cannot be continued: overwrite it from the
    /// start.
    Restart,
}

/// The server confirmed byte ranges: `Accept-Ranges` is exactly `bytes`.
pub open spec fn ranges_confirmed(accept_ranges: Option<Seq<char>>) -> bool {
    accept_ranges == Some("bytes"@)
}

/// The decision for a part file of size `part_size` (`None`: there is
/// none), given what a probe announced. A part file is resumed only when
/// ranges are confirmed and the length is known.
pub open spec fn resume_decision(
    part_size: Option<u64>,
    content_length: Option<u64>,
    accept_ranges: Option<Seq<char>>,
) -> ResumeDecision {
    match part_size {
        None => ResumeDecision::Fresh,
        Some(size) => if ranges_confirmed(accept_ranges) && content_length.is_some() {
            ResumeDecision::Resume(size)
        } else {
            ResumeDecision::Restart
        },
    }
}

/// The `Range` value that asks for the bytes from `offset` on, up to the
/// announced `length`.
pub open spec fn range_text(offset: u64, length: u64) -> Seq<char> {
    "bytes="@ + decimal(offset as nat) + "-"@ + decimal(length as nat)
}

/// The `Range` value to send, if the transfer resumes.
pub open spec fn range_for(decision: ResumeDecision, content_length: Option<u64>) -> Option<
    Seq<char>,
> {
    match (decision, content_length) {
        (ResumeDecision::Resume(offset), Some(length)) => Some(range_text(offset, length)),
        _ => None,
    }
}

/// The log line that warns of a part file about to be overwritten.
pub open spec fn restart_line(tmp_name: Seq<char>, size: u64) -> Seq<char> {
    "Found part file "@ + tmp_name + " with size "@ + decimal(size as nat)
        + " but it will be overridden because the server does not support resuming the download (range bytes)"@
}

/// The log line that warns of a transfer that cannot be resumed later.
pub open spec fn fragile_line(tmp_name: Seq<char>) -> Seq<char> {
    "The download of file "@ + tmp_name
        + " should not be interrupted because the server does not support resuming the download (range bytes)"@
}

/// What is shown when a transfer begins. Resuming sets the position to the
/// offset and restarts the clock; restarting warns and sets the position to
/// zero; a fresh transfer warns only when the server named no range support
/// at all.
pub open spec fn resume_notices(
    decision: ResumeDecision,
    accept_ranges: Option<Seq<char>>,
    tmp_name: Seq<char>,
    part_size: Option<u64>,
) -> Seq<NoticeModel> {
    match decision {
        ResumeDecision::Resume(offset) => seq![
            NoticeModel::SetPosition(offset),
            NoticeModel::ResetElapsed,
        ],
        ResumeDecision::Restart => seq![
            NoticeModel::Log(restart_line(tmp_name, part_size.unwrap_or(0))),
            NoticeModel::SetPosition(0),
        ],
        ResumeDecision::Fresh => if accept_ranges.is_none() {
            seq![NoticeModel::Log(fragile_line(tmp_name))]
        } else {
            seq![]
        },
    }
}

/// Decides how a transfer begins.
pub fn decide_resume(
    part_size: Option<u64>,
    content_length: Option<u64>,
    accept_ranges: &Option<String>,
) -> (decision: ResumeDecision)
    ensures
        decision == resume_decision(part_size, content_length, text_of(*accept_ranges)),
{
    match part_size {
        None => ResumeDecision::Fresh,
        Some(size) => {
            let confirmed = match accept_ranges {
                Some(value) => value.eq(&String::from_str("bytes")),
                None => false,
            };
            if confirmed && content_length.is_some() {
                ResumeDecision::Resume(size)
            } else {
                ResumeDecision::Restart
            }
        },
    }
}

/// Writes the `Range` value for a transfer that resumes at `offset`.
pub fn range_header(offset: u64, length: u64) -> (value: String)
    ensures
        value@ == range_text(offset, length),
{
    String::from_str("bytes=").concat(to_decimal(offset).as_str()).concat("-").concat(
        to_decimal(length).as_str(),
    )
}

/// How a transfer begins, with what to send and what to show.
#[derive(Debug, PartialEq, Eq)]
pub struct ResumePlan {
    pub decision: ResumeDecision,
    /// The `Range` value of the body request, when resuming.
    pub range: Option<String>,
    pub notices: Vec<Notice>,
}

/// Plans the start of a transfer into the part file `tmp_name`, whose size
/// is `part_size` if it exists, from what the probe announced.
pub fn compute_query_range(
    part_size: Option<u64>,
    content_length: Option<u64>,
    accept_ranges: &Option<String>,
    tmp_name: &str,
) -> (plan: ResumePlan)
    ensures
        plan.decision == resume_decision(part_size, content_length, text_of(*accept_ranges)),
        text_of(plan.range) == range_for(plan.decision, content_length),
        notices_of(plan.notices@) == resume_notices(
            plan.decision,
            text_of(*accept_ranges),
            tmp_name@,
            part_size,
        ),
{
    let decision = decide_resume(part_size, content_length, accept_ranges);
    let mut notices: Vec<Notice> = Vec::new();
    let mut range: Option<String> = None;
    match decision {
        ResumeDecision::Resume(offset) => {
            notices.push(Notice::SetPosition(offset));
            notices.push(Notice::ResetElapsed);
            match content_length {
                Some(length) => {
                    range = Some(range_header(offset, length));
                },
                None => {},
            }
        },
        ResumeDecision::Restart => {
            let size = match part_size {
                Some(size) => size,
                None => 0,
            };
            let line = String::from_str("Found part file ").concat(tmp_name).concat(
                " with size ",
            ).concat(to_decimal(size).as_str()).concat(
                " but it will be overridden because the server does not support resuming the download (range bytes)",
            );
            notices.push(Notice::Log(line));
            notices.push(Notice::SetPosition(0));
        },
        ResumeDecision::Fresh => {
            if accept_ranges.is_none() {
                let line = String::from_str("The download of file ").concat(tmp_name).concat(
                    " should not be interrupted because the server does not support resuming the download (range bytes)",
                );
                notices.push(Notice::Log(line));
            }
        },
    }
    assert(notices_of(notices@) =~= resume_notices(
        decision,
        text_of(*accept_ranges),
        tmp_name@,
        part_size,
    ));
    ResumePlan { decision, range, notices }
}

} // verus!
