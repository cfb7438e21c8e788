//! The download protocol, one decision at a time.
//!
//! A download alternates work that only a driver can do (requests, file
//! operations) with decisions. Every decision is a function here: it takes
//! what the driver's last piece of work gave and returns a `Transition`,
//! which names what to show and the next piece of work. Each kind of
//! pending work is a type of its own, so an answer can only be given to the
//! work it belongs to. A driver whose request or file operation fails, or
//! that is cancelled, ends the download with that error itself.
//!
//! What each decision is stands in `protocol`, as a model.

use crate::error::DlmError;
use crate::error::ErrorModel;
use crate::file_link::FileLink;
use crate::headers::compute_filename_from_disposition_header;
use crate::headers::compute_filename_from_location_header;
use crate::headers::extract_headers_again;
use crate::headers::try_hard_to_extract_headers;
use crate::headers::Probe;
use crate::headers::ResponseHead;
use crate::notice::notices_of;
use crate::notice::Notice;
use crate::notice::NoticeModel;
use crate::protocol::after_body_request;
use crate::protocol::after_chunk;
use crate::protocol::after_final_check;
use crate::protocol::after_full_probe;
use crate::protocol::after_header_probe;
use crate::protocol::after_measure;
use crate::protocol::after_name_probe;
use crate::protocol::after_part_check;
use crate::protocol::after_probe;
use crate::protocol::after_publish;
use crate::protocol::after_redirect_probe;
use crate::protocol::after_store;
use crate::protocol::beginning;
use crate::protocol::failing;
use crate::protocol::first_step;
use crate::protocol::follows;
use crate::protocol::job_for;
use crate::protocol::named;
use crate::protocol::placeholder_fallback;
use crate::protocol::quietly;
use crate::protocol::sound;
use crate::protocol::summary_line;
use crate::protocol::well_formed;
use crate::protocol::ChunkRead;
use crate::protocol::BodyRequestModel;
use crate::protocol::JobModel;
use crate::protocol::PartCheckModel;
use crate::protocol::PartOpenModel;
use crate::protocol::PublishingModel;
use crate::protocol::StoringModel;
use crate::protocol::SeedModel;
use crate::protocol::StepModel;
use crate::protocol::SummaryModel;
use crate::protocol::TransitionModel;
use crate::resume::compute_query_range;
use crate::resume::ResumeDecision;
use crate::text::text_of;
use vstd::prelude::*;

verus! {

/// A link whose file name is still to be found out.
#[derive(Debug)]
pub struct Seed {
    link: FileLink,
    output_dir: String,
    accept: Option<String>,
}

impl View for Seed {
    type V = SeedModel;

    closed spec fn view(&self) -> SeedModel {
        SeedModel { link: self.link@, output_dir: self.output_dir@, accept: text_of(self.accept) }
    }
}

/// One transfer: where it comes from and where it goes.
#[derive(Debug)]
pub struct Job {
    url: String,
    filename: String,
    final_path: String,
    temp_path: String,
    accept: Option<String>,
}

impl View for Job {
    type V = JobModel;

    closed spec fn view(&self) -> JobModel {
        JobModel {
            url: self.url@,
            filename: self.filename@,
            final_path: self.final_path@,
            temp_path: self.temp_path@,
            accept: text_of(self.accept),
        }
    }
}

/// How a download ended well.
#[derive(Debug, PartialEq, Eq)]
pub struct Summary {
    pub filename: String,
    /// The size of the file at the final path.
    pub size: u64,
    /// The file was there already and nothing was transferred.
    pub already_complete: bool,
}

impl View for Summary {
    type V = SummaryModel;

    open spec fn view(&self) -> SummaryModel {
        SummaryModel {
            filename: self.filename@,
            size: self.size,
            already_complete: self.already_complete,
        }
    }
}

impl Summary {
    /// The line that reports this download.
    pub fn message(&self, pretty_size: &str) -> (line: String)
        ensures
            line@ == summary_line(self@, pretty_size@),
    {
        if self.already_complete {
            String::from_str("Skipping ").concat(self.filename.as_str()).concat(
                " because the file is already completed [",
            ).concat(pretty_size).concat("]")
        } else {
            String::from_str("Completed ").concat(self.filename.as_str()).concat(" [").concat(
                pretty_size,
            ).concat("]")
        }
    }
}

/// Pending: a header-only request to the link, redirects followed, to read
/// the file name from `Content-Disposition`.
#[derive(Debug)]
pub struct NameProbe {
    seed: Seed,
}

/// Pending: a header-only request to the link, redirects not followed, to
/// read the file name from where the link redirects to.
#[derive(Debug)]
pub struct RedirectProbe {
    seed: Seed,
}

/// Pending: look whether a file stands at the final path, and how large.
#[derive(Debug)]
pub struct FinalCheck {
    job: Job,
}

/// Pending: a header-only request to the link, with the `Accept` header if
/// there is one, to learn length and range support.
#[derive(Debug)]
pub struct HeaderProbe {
    job: Job,
}

/// Pending: a full request to the link, of which only the headers are read.
#[derive(Debug)]
pub struct FullProbe {
    job: Job,
}

/// Pending: look whether a part file exists, and how large.
#[derive(Debug)]
pub struct PartCheck {
    job: Job,
    content_length: Option<u64>,
    accept_ranges: Option<String>,
}

/// Pending: open the part file, to append when resuming, else created
/// empty.
#[derive(Debug)]
pub struct PartOpen {
    job: Job,
    decision: ResumeDecision,
    range: Option<String>,
}

/// Pending: the request for the body, with the `Range` header when resuming
/// and the `Accept` header if there is one.
#[derive(Debug)]
pub struct BodyRequest {
    job: Job,
    range: Option<String>,
}

/// Pending: read the next chunk of the body, within the per-chunk timeout.
#[derive(Debug)]
pub struct Streaming {
    job: Job,
}

/// Pending: append the chunk just read to the part file and flush it.
#[derive(Debug)]
pub struct Storing {
    job: Job,
    len: u64,
}

/// Pending: read the size of the part file, now that the body has ended.
#[derive(Debug)]
pub struct Measuring {
    job: Job,
}

/// Pending: rename the part file to the final path.
#[derive(Debug)]
pub struct Publishing {
    job: Job,
    size: u64,
}

/// What a download does next.
#[derive(Debug)]
pub enum Step {
    Finished(Result<Summary, DlmError>),
    NameProbe(NameProbe),
    RedirectProbe(RedirectProbe),
    FinalCheck(FinalCheck),
    HeaderProbe(HeaderProbe),
    FullProbe(FullProbe),
    PartCheck(PartCheck),
    PartOpen(PartOpen),
    BodyRequest(BodyRequest),
    Streaming(Streaming),
    Storing(Storing),
    Measuring(Measuring),
    Publishing(Publishing),
}

impl View for NameProbe {
    type V = SeedModel;

    closed spec fn view(&self) -> SeedModel {
        self.seed@
    }
}

impl View for RedirectProbe {
    type V = SeedModel;

    closed spec fn view(&self) -> SeedModel {
        self.seed@
    }
}

impl View for FinalCheck {
    type V = JobModel;

    closed spec fn view(&self) -> JobModel {
        self.job@
    }
}

impl View for HeaderProbe {
    type V = JobModel;

    closed spec fn view(&self) -> JobModel {
        self.job@
    }
}

impl View for FullProbe {
    type V = JobModel;

    closed spec fn view(&self) -> JobModel {
        self.job@
    }
}

impl View for PartCheck {
    type V = PartCheckModel;

    closed spec fn view(&self) -> PartCheckModel {
        PartCheckModel {
            job: self.job@,
            content_length: self.content_length,
            accept_ranges: text_of(self.accept_ranges),
        }
    }
}

impl View for PartOpen {
    type V = PartOpenModel;

    closed spec fn view(&self) -> PartOpenModel {
        PartOpenModel { job: self.job@, decision: self.decision, range: text_of(self.range) }
    }
}

impl View for BodyRequest {
    type V = BodyRequestModel;

    closed spec fn view(&self) -> BodyRequestModel {
        BodyRequestModel { job: self.job@, range: text_of(self.range) }
    }
}

impl View for Streaming {
    type V = JobModel;

    closed spec fn view(&self) -> JobModel {
        self.job@
    }
}

impl View for Storing {
    type V = StoringModel;

    closed spec fn view(&self) -> StoringModel {
        StoringModel { job: self.job@, len: self.len }
    }
}

impl View for Measuring {
    type V = JobModel;

    closed spec fn view(&self) -> JobModel {
        self.job@
    }
}

impl View for Publishing {
    type V = PublishingModel;

    closed spec fn view(&self) -> PublishingModel {
        PublishingModel { job: self.job@, size: self.size }
    }
}

/// A download's end as a model.
pub open spec fn end_of(result: Result<Summary, DlmError>) -> Result<SummaryModel, ErrorModel> {
    match result {
        Ok(summary) => Ok(summary@),
        Err(error) => Err(error@),
    }
}

impl View for Step {
    type V = StepModel;

    open spec fn view(&self) -> StepModel {
        match self {
            Step::Finished(result) => StepModel::Finished(end_of(*result)),
            Step::NameProbe(p) => StepModel::NameProbe(p@),
            Step::RedirectProbe(p) => StepModel::RedirectProbe(p@),
            Step::FinalCheck(p) => StepModel::FinalCheck(p@),
            Step::HeaderProbe(p) => StepModel::HeaderProbe(p@),
            Step::FullProbe(p) => StepModel::FullProbe(p@),
            Step::PartCheck(p) => p@.step(),
            Step::PartOpen(p) => p@.step(),
            Step::BodyRequest(p) => p@.step(),
            Step::Streaming(p) => StepModel::Streaming(p@),
            Step::Storing(p) => p@.step(),
            Step::Measuring(p) => StepModel::Measuring(p@),
            Step::Publishing(p) => p@.step(),
        }
    }
}

/// A decision: what to show, then what to do.
#[derive(Debug)]
pub struct Transition {
    /// To be shown, in this order, before the next step starts.
    pub notices: Vec<Notice>,
    pub next: Step,
}

impl View for Transition {
    type V = TransitionModel;

    open spec fn view(&self) -> TransitionModel {
        TransitionModel { notices: notices_of(self.notices@), next: self.next@ }
    }
}

fn quiet(next: Step) -> (t: Transition)
    ensures
        t@ == quietly(next@),
{
    let t = Transition { notices: Vec::new(), next };
    assert(notices_of(t.notices@) =~= seq![]);
    t
}

fn fail(error: DlmError) -> (t: Transition)
    ensures
        t@ == failing(error@),
{
    quiet(Step::Finished(Err(error)))
}

fn log_then(line: String, next: Step) -> (t: Transition)
    ensures
        t@ == (TransitionModel { notices: seq![NoticeModel::Log(line@)], next: next@ }),
{
    let mut notices: Vec<Notice> = Vec::new();
    notices.push(Notice::Log(line));
    let t = Transition { notices, next };
    assert(notices_of(t.notices@) =~= seq![NoticeModel::Log(line@)]);
    t
}

fn make_job(
    url: String,
    stem: &str,
    extension: &str,
    output_dir: &str,
    accept: Option<String>,
) -> (job: Job)
    ensures
        job@ == job_for(url@, stem@, extension@, output_dir@, text_of(accept)),
        well_formed(job@),
{
    let filename = String::from_str(stem).concat(".").concat(extension);
    let final_path = String::from_str(output_dir).concat("/").concat(filename.as_str());
    let temp_path = final_path.clone().concat(".part");
    Job { url, filename, final_path, temp_path, accept }
}

fn name_seed(seed: Seed, stem: &str, extension: &str) -> (next: Step)
    ensures
        next@ == named(seed@, stem@, extension@),
        next matches Step::FinalCheck(p) && well_formed(p@),
{
    let job = make_job(seed.link.url, stem, extension, seed.output_dir.as_str(), seed.accept);
    Step::FinalCheck(FinalCheck { job })
}

/// Starts the download of `raw_link` into `output_dir`. `accept_header` is
/// sent as `Accept` with the header probe and the body request.
pub fn download(raw_link: &str, output_dir: &str, accept_header: Option<&String>) -> (t:
    Transition)
    ensures
        t@ == first_step(
            raw_link@,
            output_dir@,
            match accept_header {
                Some(a) => Some(a@),
                None => None,
            },
        ),
        sound(t@.next),
{
    let accept = match accept_header {
        Some(a) => Some(a.clone()),
        None => None,
    };
    match FileLink::new(raw_link) {
        Err(e) => fail(e),
        Ok(link) => {
            if link.extension.is_some() {
                let FileLink { url, filename_without_extension, extension } = link;
                let extension = extension.unwrap();
                let job = make_job(
                    url,
                    filename_without_extension.as_str(),
                    extension.as_str(),
                    output_dir,
                    accept,
                );
                quiet(Step::FinalCheck(FinalCheck { job }))
            } else {
                let seed = Seed { link, output_dir: String::from_str(output_dir), accept };
                quiet(Step::NameProbe(NameProbe { seed }))
            }
        },
    }
}

/// Starts a download unless cancellation already won: then it ends at once
/// with `ProgramInterrupted`, and shows nothing.
pub fn download_link(
    raw_link: &str,
    output_dir: &str,
    cancelled: bool,
    accept_header: Option<&String>,
) -> (t: Transition)
    ensures
        t@ == if cancelled {
            failing(ErrorModel::ProgramInterrupted)
        } else {
            first_step(
                raw_link@,
                output_dir@,
                match accept_header {
                    Some(a) => Some(a@),
                    None => None,
                },
            )
        },
        sound(t@.next),
{
    if cancelled {
        fail(DlmError::ProgramInterrupted)
    } else {
        download(raw_link, output_dir, accept_header)
    }
}

impl Job {
    #[verifier::type_invariant]
    spec fn paths_agree(&self) -> bool {
        self.temp_path@ == self.final_path@ + ".part"@
    }

    pub fn url(&self) -> (url: &String)
        ensures
            url@ == self@.url,
    {
        &self.url
    }

    pub fn filename(&self) -> (filename: &String)
        ensures
            filename@ == self@.filename,
    {
        &self.filename
    }

    pub fn final_path(&self) -> (path: &String)
        ensures
            path@ == self@.final_path,
            well_formed(self@),
    {
        proof {
            use_type_invariant(self);
        }
        &self.final_path
    }

    pub fn temp_path(&self) -> (path: &String)
        ensures
            path@ == self@.temp_path,
            well_formed(self@),
    {
        proof {
            use_type_invariant(self);
        }
        &self.temp_path
    }

    pub fn accept(&self) -> (accept: &Option<String>)
        ensures
            text_of(*accept) == self@.accept,
    {
        &self.accept
    }
}

impl NameProbe {
    /// The address to probe.
    pub fn url(&self) -> (url: &String)
        ensures
            url@ == self@.link.url,
    {
        &self.seed.link.url
    }

    /// Decides on the answer to the name probe.
    pub fn answer(self, head: &ResponseHead) -> (t: Transition)
        ensures
            t@ == after_name_probe(self@, head.status(), head.headers()),
            follows(StepModel::NameProbe(self@), t@),
            sound(t@.next),
    {
        match compute_filename_from_disposition_header(head) {
            Err(e) => fail(e),
            Ok(None) => quiet(Step::RedirectProbe(RedirectProbe { seed: self.seed })),
            Ok(Some(name)) => {
                let (extension, stem) = FileLink::extract_extension_from_filename(name.as_str());
                match extension {
                    Some(extension) => quiet(
                        name_seed(self.seed, stem.as_str(), extension.as_str()),
                    ),
                    None => {
                        let line = String::from_str(
                            "Could not determine file extension based on header ",
                        ).concat(stem.as_str()).concat(" for ").concat(
                            self.seed.link.url.as_str(),
                        );
                        let own_stem = self.seed.link.filename_without_extension.clone();
                        log_then(
                            line,
                            name_seed(self.seed, own_stem.as_str(), "NO_EXTENSION_FOUND"),
                        )
                    },
                }
            },
        }
    }
}

impl RedirectProbe {
    /// The address to probe.
    pub fn url(&self) -> (url: &String)
        ensures
            url@ == self@.link.url,
    {
        &self.seed.link.url
    }

    /// Decides on the answer to the redirect probe.
    pub fn answer(self, head: &ResponseHead) -> (t: Transition)
        ensures
            t@ == after_redirect_probe(self@, head.status(), head.headers()),
            follows(StepModel::RedirectProbe(self@), t@),
            sound(t@.next),
    {
        match compute_filename_from_location_header(head) {
            Err(e) => fail(e),
            Ok(None) => fall_back(self.seed),
            Ok(Some(target)) => {
                let FileLink { url: _, filename_without_extension, extension } = target;
                match extension {
                    Some(extension) => quiet(
                        name_seed(
                            self.seed,
                            filename_without_extension.as_str(),
                            extension.as_str(),
                        ),
                    ),
                    None => fall_back(self.seed),
                }
            },
        }
    }
}

/// Names the file by the link's own stem and the placeholder, and logs it.
fn fall_back(seed: Seed) -> (t: Transition)
    ensures
        t@ == placeholder_fallback(seed@),
        sound(t@.next),
{
    let line = String::from_str(
        "Using placeholder file extension as it could not be determined for ",
    ).concat(seed.link.url.as_str());
    let own_stem = seed.link.filename_without_extension.clone();
    log_then(line, name_seed(seed, own_stem.as_str(), "NO_EXTENSION_FOUND"))
}

fn begin(job: Job, content_length: Option<u64>, accept_ranges: Option<String>) -> (t: Transition)
    ensures
        t@ == beginning(job@, content_length, text_of(accept_ranges)),
        sound(t@.next),
{
    proof {
        use_type_invariant(&job);
    }
    let mut notices: Vec<Notice> = Vec::new();
    notices.push(Notice::SetMessage(job.filename.clone()));
    match content_length {
        Some(total) => {
            notices.push(Notice::SetLength(total));
        },
        None => {},
    }
    let t = Transition {
        notices,
        next: Step::PartCheck(PartCheck { job, content_length, accept_ranges }),
    };
    assert(notices_of(t.notices@) =~= beginning(
        job@,
        content_length,
        text_of(accept_ranges),
    ).notices);
    t
}

fn proceed(job: Job, probe: Probe) -> (t: Transition)
    ensures
        t@ == after_probe(job@, probe@),
        sound(t@.next),
{
    proof {
        use_type_invariant(&job);
    }
    match probe {
        Probe::Retry => quiet(Step::FullProbe(FullProbe { job })),
        Probe::Known { content_length, accept_ranges } => begin(job, content_length, accept_ranges),
    }
}

impl FinalCheck {
    pub fn job(&self) -> (job: &Job)
        ensures
            job@ == self@,
    {
        &self.job
    }

    /// Decides on what stands at the final path: `Some` with the size of
    /// the file there, `None` if there is none.
    pub fn answer(self, size: Option<u64>) -> (t: Transition)
        ensures
            t@ == after_final_check(self@, size),
            follows(StepModel::FinalCheck(self@), t@),
            sound(t@.next),
    {
        proof {
            use_type_invariant(&self.job);
        }
        match size {
            Some(size) => quiet(
                Step::Finished(
                    Ok(Summary { filename: self.job.filename, size, already_complete: true }),
                ),
            ),
            None => quiet(Step::HeaderProbe(HeaderProbe { job: self.job })),
        }
    }
}

impl HeaderProbe {
    pub fn job(&self) -> (job: &Job)
        ensures
            job@ == self@,
    {
        &self.job
    }

    /// Decides on the answer to the header probe.
    pub fn answer(self, head: &ResponseHead) -> (t: Transition)
        ensures
            t@ == after_header_probe(self@, head.status(), head.headers()),
            follows(StepModel::HeaderProbe(self@), t@),
            sound(t@.next),
    {
        proof {
            use_type_invariant(&self.job);
        }
        if !head.is_success() {
            fail(head.status_error())
        } else {
            proceed(self.job, try_hard_to_extract_headers(head.header_map()))
        }
    }
}

impl FullProbe {
    pub fn job(&self) -> (job: &Job)
        ensures
            job@ == self@,
    {
        &self.job
    }

    /// Decides on the answer to the full probe.
    pub fn answer(self, head: &ResponseHead) -> (t: Transition)
        ensures
            t@ == after_full_probe(self@, head.headers()),
            follows(StepModel::FullProbe(self@), t@),
            sound(t@.next),
    {
        proof {
            use_type_invariant(&self.job);
        }
        proceed(self.job, extract_headers_again(head.header_map()))
    }
}

impl PartCheck {
    pub fn job(&self) -> (job: &Job)
        ensures
            job@ == self@.job,
    {
        &self.job
    }

    /// Decides on the part file: `Some` with its size, `None` if there is
    /// none.
    pub fn answer(self, part_size: Option<u64>) -> (t: Transition)
        ensures
            t@ == after_part_check(
                self@.job,
                self@.content_length,
                self@.accept_ranges,
                part_size,
            ),
            follows(self@.step(), t@),
            sound(t@.next),
    {
        proof {
            use_type_invariant(&self.job);
        }
        let plan = compute_query_range(
            part_size,
            self.content_length,
            &self.accept_ranges,
            self.job.temp_path.as_str(),
        );
        Transition {
            notices: plan.notices,
            next: Step::PartOpen(
                PartOpen { job: self.job, decision: plan.decision, range: plan.range },
            ),
        }
    }
}

impl PartOpen {
    pub fn job(&self) -> (job: &Job)
        ensures
            job@ == self@.job,
    {
        &self.job
    }

    /// Whether the part file is opened to append, and must exist; else it is
    /// created, or emptied if it exists.
    pub fn appends(&self) -> (r: bool)
        ensures
            r == (self@.decision is Resume),
    {
        match self.decision {
            ResumeDecision::Resume(_) => true,
            _ => false,
        }
    }

    /// Goes on once the part file is open.
    pub fn answer(self) -> (t: Transition)
        ensures
            t@ == quietly(StepModel::BodyRequest { job: self@.job, range: self@.range }),
            follows(self@.step(), t@),
            sound(t@.next),
    {
        proof {
            use_type_invariant(&self.job);
        }
        quiet(Step::BodyRequest(BodyRequest { job: self.job, range: self.range }))
    }
}

impl BodyRequest {
    pub fn job(&self) -> (job: &Job)
        ensures
            job@ == self@.job,
    {
        &self.job
    }

    /// The `Range` header to send, if any.
    pub fn range(&self) -> (range: &Option<String>)
        ensures
            text_of(*range) == self@.range,
    {
        &self.range
    }

    /// Decides on the answer to the body request.
    pub fn answer(self, head: &ResponseHead) -> (t: Transition)
        ensures
            t@ == after_body_request(self@.job, head.status()),
            follows(self@.step(), t@),
            sound(t@.next),
    {
        proof {
            use_type_invariant(&self.job);
        }
        if !head.is_success() {
            fail(head.status_error())
        } else {
            quiet(Step::Streaming(Streaming { job: self.job }))
        }
    }
}

impl Streaming {
    pub fn job(&self) -> (job: &Job)
        ensures
            job@ == self@,
    {
        &self.job
    }

    /// Decides on what the read from the body gave.
    pub fn answer(self, chunk: ChunkRead) -> (t: Transition)
        ensures
            t@ == after_chunk(self@, chunk),
            follows(StepModel::Streaming(self@), t@),
            sound(t@.next),
    {
        proof {
            use_type_invariant(&self.job);
        }
        match chunk {
            ChunkRead::Data(len) => quiet(Step::Storing(Storing { job: self.job, len })),
            ChunkRead::End => quiet(Step::Measuring(Measuring { job: self.job })),
            ChunkRead::TimedOut => fail(DlmError::TimedOut),
        }
    }
}

impl Storing {
    pub fn job(&self) -> (job: &Job)
        ensures
            job@ == self@.job,
    {
        &self.job
    }

    /// Goes on once the chunk is appended and flushed.
    pub fn answer(self) -> (t: Transition)
        ensures
            t@ == after_store(self@.job, self@.len),
            follows(self@.step(), t@),
            sound(t@.next),
    {
        proof {
            use_type_invariant(&self.job);
        }
        let mut notices: Vec<Notice> = Vec::new();
        notices.push(Notice::Advance(self.len));
        let t = Transition { notices, next: Step::Streaming(Streaming { job: self.job }) };
        assert(notices_of(t.notices@) =~= seq![NoticeModel::Advance(self.len)]);
        t
    }
}

impl Measuring {
    pub fn job(&self) -> (job: &Job)
        ensures
            job@ == self@,
    {
        &self.job
    }

    /// Goes on with the size of the part file.
    pub fn answer(self, size: u64) -> (t: Transition)
        ensures
            t@ == after_measure(self@, size),
            follows(StepModel::Measuring(self@), t@),
            sound(t@.next),
    {
        proof {
            use_type_invariant(&self.job);
        }
        quiet(Step::Publishing(Publishing { job: self.job, size }))
    }
}

impl Publishing {
    pub fn job(&self) -> (job: &Job)
        ensures
            job@ == self@.job,
    {
        &self.job
    }

    /// Ends the download once the part file stands at the final path.
    pub fn answer(self) -> (t: Transition)
        ensures
            t@ == after_publish(self@.job, self@.size),
            follows(self@.step(), t@),
            sound(t@.next),
    {
        quiet(
            Step::Finished(
                Ok(
                    Summary {
                        filename: self.job.filename,
                        size: self.size,
                        already_complete: false,
                    },
                ),
            ),
        )
    }
}

} // verus!
