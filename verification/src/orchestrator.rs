//! Running many downloads: which lines start a transfer, what is logged
//! and counted when one settles, and how the run ends.

use crate::error::description;
use crate::error::DlmError;
use crate::error::ErrorModel;
use crate::pool::SlotPool;
use crate::text::blank;
use crate::text::chars_of;
use crate::text::decimal;
use crate::text::is_blank;
use crate::text::slice_text;
use crate::text::text_of;
use crate::text::to_decimal;
use vstd::prelude::*;

verus! {

/// How many of the first `upto` lines are not blank.
pub open spec fn non_blank_count(lines: Seq<String>, upto: int) -> nat
    decreases upto,
{
    if upto <= 0 {
        0
    } else if blank(lines[upto - 1]@) {
        non_blank_count(lines, upto - 1)
    } else {
        non_blank_count(lines, upto - 1) + 1
    }
}

/// Counts the lines that hold a link: those that are not blank.
pub fn count_non_empty_lines(lines: &Vec<String>) -> (count: usize)
    ensures
        count == non_blank_count(lines@, lines@.len() as int),
{
    let mut count: usize = 0;
    let mut i: usize = 0;
    while i < lines.len()
        invariant
            i <= lines.len(),
            count == non_blank_count(lines@, i as int),
            count <= i,
        decreases lines.len() - i,
    {
        if !is_blank(lines[i].as_str()) {
            count += 1;
        }
        i += 1;
    }
    count
}

/// An output directory without the `/` that may end it.
pub open spec fn without_trailing_slash(dir: Seq<char>) -> Seq<char> {
    if dir.len() > 0 && dir.last() == '/' {
        dir.drop_last()
    } else {
        dir
    }
}

/// Drops one trailing `/` from the output directory, if there is one.
pub fn trim_output_dir(output_dir: &str) -> (dir: String)
    ensures
        dir@ == without_trailing_slash(output_dir@),
{
    let chars = chars_of(output_dir);
    let n = chars.len();
    if n > 0 && chars[n - 1] == '/' {
        assert(output_dir@.drop_last() =~= output_dir@.subrange(0, n - 1));
        slice_text(output_dir, 0, n - 1)
    } else {
        String::from_str(output_dir)
    }
}

/// The first line logged by a run.
pub open spec fn greeting_line(max_concurrent_downloads: usize) -> Seq<char> {
    "Starting dlm with at most "@ + decimal(max_concurrent_downloads as nat)
        + " concurrent downloads"@
}

/// The line that tells how many links were found.
pub open spec fn found_line(nb_of_lines: usize, input_file: Seq<char>) -> Seq<char> {
    "Found "@ + decimal(nb_of_lines as nat) + " URLs in input file "@ + input_file
}

/// The two lines logged when a run starts.
pub fn startup_lines(max_concurrent_downloads: usize, nb_of_lines: usize, input_file: &str) -> (lines:
    (String, String))
    ensures
        lines.0@ == greeting_line(max_concurrent_downloads),
        lines.1@ == found_line(nb_of_lines, input_file@),
{
    let greeting = String::from_str("Starting dlm with at most ").concat(
        to_decimal(max_concurrent_downloads as u64).as_str(),
    ).concat(" concurrent downloads");
    let found = String::from_str("Found ").concat(to_decimal(nb_of_lines as u64).as_str()).concat(
        " URLs in input file ",
    ).concat(input_file);
    (greeting, found)
}

/// What becomes of one line of the input.
#[derive(Debug, PartialEq, Eq)]
pub enum Admission {
    /// Cancellation was requested: the line is dropped and leaves no trace.
    Dropped,
    /// The line starts no transfer: `message` is to be logged.
    Reported { message: String },
    /// A transfer of the line starts, holding `slot`.
    Started { slot: usize },
    /// Every slot is checked out: the line must wait for a transfer to
    /// settle and be offered again.
    Saturated,
}

pub enum AdmissionModel {
    Dropped,
    Reported { message: Seq<char> },
    Started { slot: usize },
    Saturated,
}

impl View for Admission {
    type V = AdmissionModel;

    open spec fn view(&self) -> AdmissionModel {
        match self {
            Admission::Dropped => AdmissionModel::Dropped,
            Admission::Reported { message } => AdmissionModel::Reported { message: message@ },
            Admission::Started { slot } => AdmissionModel::Started { slot: *slot },
            Admission::Saturated => AdmissionModel::Saturated,
        }
    }
}

/// One line as it was read: its text, or why reading failed.
pub open spec fn line_of(line: Result<&str, &str>) -> Result<Seq<char>, Seq<char>> {
    match line {
        Ok(text) => Ok(text@),
        Err(why) => Err(why@),
    }
}

/// The line logged for a line that could not be read.
pub open spec fn unreadable_line(why: Seq<char>) -> Seq<char> {
    "Error with links iterator "@ + why
}

/// What is logged for a line that starts no transfer: one that could not
/// be read, or a blank one. A line that holds a link logs nothing here.
pub open spec fn report_for(line: Result<Seq<char>, Seq<char>>) -> Option<Seq<char>> {
    match line {
        Err(why) => Some(unreadable_line(why)),
        Ok(text) => if blank(text) {
            Some("Skipping empty line"@)
        } else {
            None
        },
    }
}

/// A transfer's end as the orchestrator sees it: the line to log for a
/// download that ended well, or its error.
pub open spec fn outcome_of(outcome: Result<String, DlmError>) -> Result<Seq<char>, ErrorModel> {
    match outcome {
        Ok(info) => Ok(info@),
        Err(error) => Err(error@),
    }
}

/// The line logged for a link whose download failed for good.
pub open spec fn failure_line(link: Seq<char>, error: ErrorModel) -> Seq<char> {
    "Unrecoverable error while processing "@ + link + ": "@ + description(error)
}

/// What is logged when a transfer settles. A transfer that cancellation
/// overtook logs nothing.
pub open spec fn settle_log(link: Seq<char>, outcome: Result<Seq<char>, ErrorModel>) -> Option<
    Seq<char>,
> {
    match outcome {
        Ok(info) => Some(info),
        Err(ErrorModel::ProgramInterrupted) => None,
        Err(error) => Some(failure_line(link, error)),
    }
}

/// One more, unless the count is at its largest value already.
pub open spec fn counted_up(n: u64) -> u64 {
    if n < u64::MAX {
        (n + 1) as u64
    } else {
        n
    }
}

/// The state of one run: the slot pool, the count of finished tasks, and
/// whether and how often cancellation was requested.
#[derive(Debug)]
pub struct Orchestrator {
    pool: SlotPool,
    finished: u64,
    interrupts: u64,
}

impl Orchestrator {
    pub closed spec fn pool(&self) -> SlotPool {
        self.pool
    }

    /// How many tasks finished: the aggregate progress.
    pub closed spec fn finished(&self) -> u64 {
        self.finished
    }

    /// How many interrupts arrived.
    pub closed spec fn interrupts(&self) -> u64 {
        self.interrupts
    }

    /// Cancellation is requested from the first interrupt on, for good.
    pub open spec fn cancelled(&self) -> bool {
        self.interrupts() > 0
    }

    /// The state in which a run starts, with `max_concurrent_downloads`
    /// slots. An input without any link is refused: `EmptyInputFile`.
    pub fn new(max_concurrent_downloads: usize, nb_of_lines: usize) -> (run: Result<
        Orchestrator,
        DlmError,
    >)
        ensures
            match run {
                Ok(o) => {
                    &&& nb_of_lines > 0
                    &&& o.pool().capacity() == max_concurrent_downloads
                    &&& o.pool().outstanding() == 0
                    &&& o.pool().wf()
                    &&& o.finished() == 0
                    &&& o.interrupts() == 0
                },
                Err(e) => nb_of_lines == 0 && e@ == ErrorModel::EmptyInputFile,
            },
    {
        if nb_of_lines == 0 {
            Err(DlmError::EmptyInputFile)
        } else {
            Ok(
                Orchestrator {
                    pool: SlotPool::new(max_concurrent_downloads),
                    finished: 0,
                    interrupts: 0,
                },
            )
        }
    }

    /// Records an interrupt. The first one requests cancellation; every
    /// later one changes nothing but the count, and asks for the warning
    /// that something may be stuck.
    pub fn interrupt(&mut self) -> (warn: bool)
        ensures
            final(self).pool() == old(self).pool(),
            final(self).finished() == old(self).finished(),
            final(self).interrupts() == counted_up(old(self).interrupts()),
            final(self).cancelled(),
            warn == old(self).cancelled(),
    {
        let warn = self.interrupts > 0;
        if self.interrupts < u64::MAX {
            self.interrupts = self.interrupts + 1;
        }
        warn
    }

    pub fn is_cancelled(&self) -> (r: bool)
        ensures
            r == self.cancelled(),
    {
        self.interrupts > 0
    }

    /// How many tasks finished so far.
    pub fn finished_count(&self) -> (n: u64)
        ensures
            n == self.finished(),
    {
        self.finished
    }

    /// How many slots are checked out. It never exceeds the number of slots.
    pub fn in_flight(&self) -> (n: usize)
        ensures
            n == self.pool().outstanding(),
            0 <= self.pool().outstanding() <= self.pool().capacity(),
    {
        self.pool.checked_out()
    }

    /// Whether every slot is back in the pool.
    pub fn is_idle(&self) -> (idle: bool)
        ensures
            idle == (self.pool().outstanding() == 0),
    {
        self.pool.is_idle()
    }

    /// Decides on one line of the input. After cancellation no line starts
    /// anything. A line that could not be read and a blank line are
    /// reported and counted as finished, without using a slot. Any other
    /// line starts a transfer if a slot is free, and must wait if none is.
    pub fn consider(&mut self, line: Result<&str, &str>) -> (admission: Admission)
        ensures
            final(self).interrupts() == old(self).interrupts(),
            final(self).pool().capacity() == old(self).pool().capacity(),
            0 <= final(self).pool().outstanding() <= final(self).pool().capacity(),
            final(self).pool().wf(),
            old(self).cancelled() ==> {
                &&& admission@ == AdmissionModel::Dropped
                &&& final(self).pool() == old(self).pool()
                &&& final(self).finished() == old(self).finished()
            },
            !old(self).cancelled() ==> match report_for(line_of(line)) {
                Some(message) => {
                    &&& admission@ == AdmissionModel::Reported { message }
                    &&& final(self).pool() == old(self).pool()
                    &&& final(self).finished() == counted_up(old(self).finished())
                },
                None => {
                    &&& final(self).finished() == old(self).finished()
                    &&& if old(self).pool().free().len() == 0 {
                        &&& admission@ == AdmissionModel::Saturated
                        &&& final(self).pool() == old(self).pool()
                    } else {
                        &&& admission@ == AdmissionModel::Started {
                            slot: old(self).pool().free()[0],
                        }
                        &&& !old(self).pool().is_out(old(self).pool().free()[0])
                        &&& final(self).pool().is_out(old(self).pool().free()[0])
                        &&& final(self).pool().free() == old(self).pool().free().drop_first()
                        &&& final(self).pool().outstanding() == old(self).pool().outstanding() + 1
                    }
                },
            },
    {
        let _ = self.pool.checked_out();
        if self.interrupts > 0 {
            return Admission::Dropped;
        }
        let report = match line {
            Err(why) => Some(String::from_str("Error with links iterator ").concat(why)),
            Ok(text) => {
                if is_blank(text) {
                    Some(String::from_str("Skipping empty line"))
                } else {
                    None
                }
            },
        };
        match report {
            Some(message) => {
                self.count_one();
                Admission::Reported { message }
            },
            None => match self.pool.acquire() {
                Some(slot) => Admission::Started { slot },
                None => Admission::Saturated,
            },
        }
    }

    fn count_one(&mut self)
        ensures
            final(self).pool == old(self).pool,
            final(self).interrupts == old(self).interrupts,
            final(self).finished == counted_up(old(self).finished),
    {
        if self.finished < u64::MAX {
            self.finished = self.finished + 1;
        }
    }

    /// Settles the transfer of `link` that held `slot`, however it ended:
    /// the slot goes back to the pool and the task counts as finished, once.
    /// What is to be logged is returned; a transfer that cancellation
    /// overtook logs nothing. A slot that is not checked out holds no
    /// transfer: there is nothing to settle, so nothing is counted, logged or
    /// changed, and no task is ever counted twice.
    pub fn settle(&mut self, slot: usize, link: &str, outcome: Result<String, DlmError>) -> (log:
        Option<String>)
        ensures
            final(self).interrupts() == old(self).interrupts(),
            final(self).pool().capacity() == old(self).pool().capacity(),
            !final(self).pool().is_out(slot),
            old(self).pool().is_out(slot) ==> {
                &&& text_of(log) == settle_log(link@, outcome_of(outcome))
                &&& final(self).finished() == counted_up(old(self).finished())
                &&& final(self).pool().free() == old(self).pool().free().push(slot)
                &&& final(self).pool().outstanding() == old(self).pool().outstanding() - 1
            },
            !old(self).pool().is_out(slot) ==> {
                &&& log.is_none()
                &&& final(self).finished() == old(self).finished()
                &&& final(self).pool() == old(self).pool()
            },
            0 <= final(self).pool().outstanding() <= final(self).pool().capacity(),
            final(self).pool().wf(),
    {
        if !self.pool.release(slot) {
            return None;
        }
        self.count_one();
        match outcome {
            Ok(info) => Some(info),
            Err(error) => {
                if error.is_interruption() {
                    None
                } else {
                    Some(
                        String::from_str("Unrecoverable error while processing ").concat(
                            link,
                        ).concat(": ").concat(error.describe().as_str()),
                    )
                }
            },
        }
    }

    /// How the run ends: interrupted once cancellation was requested,
    /// however many transfers had completed; well otherwise, whatever
    /// became of the single links.
    pub fn finish(&self) -> (end: Result<(), DlmError>)
        ensures
            match end {
                Ok(_) => !self.cancelled(),
                Err(e) => self.cancelled() && e@ == ErrorModel::ProgramInterrupted,
            },
    {
        if self.interrupts > 0 {
            Err(DlmError::ProgramInterrupted)
        } else {
            Ok(())
        }
    }
}

/// The status the process exits with: 0 after a run that ended well, 1
/// after one that was interrupted or never started.
pub fn exit_code(end: &Result<(), DlmError>) -> (code: i32)
    ensures
        code == if end.is_ok() {
            0i32
        } else {
            1i32
        },
{
    match end {
        Ok(_) => 0,
        Err(_) => 1,
    }
}

/// A transfer that cancellation overtook leaves no line in the log, whatever
/// the link.
pub proof fn law_cancellation_is_silent(link: Seq<char>)
    ensures
        settle_log(link, Err(ErrorModel::ProgramInterrupted)).is_none(),
{
}

/// Every other end of a transfer is logged: a download that ended well by
/// its own line, a failure by a line that names the link and the error.
pub proof fn law_other_ends_are_logged(link: Seq<char>, outcome: Result<Seq<char>, ErrorModel>)
    requires
        outcome != Err::<Seq<char>, ErrorModel>(ErrorModel::ProgramInterrupted),
    ensures
        settle_log(link, outcome).is_some(),
{
}

} // verus!
