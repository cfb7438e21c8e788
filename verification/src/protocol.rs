//! The download protocol as a model: what each step is, and which
//! decision follows each answer. The executable protocol in `downloader`
//! is held to these definitions, and the laws at the end are proved of
//! them.

use crate::error::ErrorModel;
use crate::file_link::resolvable;
use crate::file_link::resolved;
use crate::file_link::split_extension;
use crate::file_link::FileLinkModel;
use crate::headers::announced_filename;
use crate::headers::full_probe;
use crate::headers::light_probe;
use crate::headers::redirect_target;
use crate::headers::status_failure;
use crate::headers::success_status;
use crate::headers::ProbeModel;
use crate::notice::NoticeModel;
use crate::resume::range_for;
use crate::resume::range_text;
use crate::resume::ranges_confirmed;
use crate::resume::restart_line;
use crate::resume::resume_decision;
use crate::resume::resume_notices;
use crate::resume::ResumeDecision;
use crate::text::decimal;
use reqwest::header::HeaderMap;
use vstd::prelude::*;

verus! {

/// The extension given to a file whose extension could not be found out.
pub open spec fn placeholder_extension() -> Seq<char> {
    "NO_EXTENSION_FOUND"@
}

/// A link whose file name is still to be found out.
pub struct SeedModel {
    pub link: FileLinkModel,
    pub output_dir: Seq<char>,
    pub accept: Option<Seq<char>>,
}

/// One transfer: where it comes from and where it goes.
pub struct JobModel {
    pub url: Seq<char>,
    /// Stem, `.` and extension.
    pub filename: Seq<char>,
    /// Where the complete file stands: output directory, `/` and file name.
    pub final_path: Seq<char>,
    /// Where the transfer is written until it is complete: the final path
    /// and `.part`.
    pub temp_path: Seq<char>,
    pub accept: Option<Seq<char>>,
}

/// The job that saves `url` under `stem` and `extension` in `output_dir`.
pub open spec fn job_for(
    url: Seq<char>,
    stem: Seq<char>,
    extension: Seq<char>,
    output_dir: Seq<char>,
    accept: Option<Seq<char>>,
) -> JobModel {
    let filename = stem + "."@ + extension;
    let final_path = output_dir + "/"@ + filename;
    JobModel { url, filename, final_path, temp_path: final_path + ".part"@, accept }
}

/// A job's paths are built from its file name: the part file is the final
/// path with `.part` behind it.
pub open spec fn well_formed(job: JobModel) -> bool {
    job.temp_path == job.final_path + ".part"@
}

/// How a download ended well.
pub struct SummaryModel {
    pub filename: Seq<char>,
    pub size: u64,
    pub already_complete: bool,
}

/// The line that reports a download that ended well; `pretty_size` is the
/// size as the user is to read it.
pub open spec fn summary_line(summary: SummaryModel, pretty_size: Seq<char>) -> Seq<char> {
    if summary.already_complete {
        "Skipping "@ + summary.filename + " because the file is already completed ["@
            + pretty_size + "]"@
    } else {
        "Completed "@ + summary.filename + " ["@ + pretty_size + "]"@
    }
}

/// What a download does next: its end, or the work that is pending.
pub enum StepModel {
    Finished(Result<SummaryModel, ErrorModel>),
    NameProbe(SeedModel),
    RedirectProbe(SeedModel),
    FinalCheck(JobModel),
    HeaderProbe(JobModel),
    FullProbe(JobModel),
    PartCheck { job: JobModel, content_length: Option<u64>, accept_ranges: Option<Seq<char>> },
    PartOpen { job: JobModel, decision: ResumeDecision, range: Option<Seq<char>> },
    BodyRequest { job: JobModel, range: Option<Seq<char>> },
    Streaming(JobModel),
    Storing { job: JobModel, len: u64 },
    Measuring(JobModel),
    Publishing { job: JobModel, size: u64 },
}

/// A pending look at the part file, with what the probe announced.
pub struct PartCheckModel {
    pub job: JobModel,
    pub content_length: Option<u64>,
    pub accept_ranges: Option<Seq<char>>,
}

/// A pending opening of the part file, with the decision it follows and
/// the range to ask for afterwards.
pub struct PartOpenModel {
    pub job: JobModel,
    pub decision: ResumeDecision,
    pub range: Option<Seq<char>>,
}

/// A pending request for the body.
pub struct BodyRequestModel {
    pub job: JobModel,
    pub range: Option<Seq<char>>,
}

/// A pending write of a chunk of `len` bytes.
pub struct StoringModel {
    pub job: JobModel,
    pub len: u64,
}

/// A pending rename of a part file of `size` bytes.
pub struct PublishingModel {
    pub job: JobModel,
    pub size: u64,
}

impl PartCheckModel {
    pub open spec fn step(self) -> StepModel {
        StepModel::PartCheck {
            job: self.job,
            content_length: self.content_length,
            accept_ranges: self.accept_ranges,
        }
    }
}

impl PartOpenModel {
    pub open spec fn step(self) -> StepModel {
        StepModel::PartOpen { job: self.job, decision: self.decision, range: self.range }
    }
}

impl BodyRequestModel {
    pub open spec fn step(self) -> StepModel {
        StepModel::BodyRequest { job: self.job, range: self.range }
    }
}

impl StoringModel {
    pub open spec fn step(self) -> StepModel {
        StepModel::Storing { job: self.job, len: self.len }
    }
}

impl PublishingModel {
    pub open spec fn step(self) -> StepModel {
        StepModel::Publishing { job: self.job, size: self.size }
    }
}

/// A decision: what to show, then what to do.
pub struct TransitionModel {
    pub notices: Seq<NoticeModel>,
    pub next: StepModel,
}

/// A transition that shows nothing.
pub open spec fn quietly(next: StepModel) -> TransitionModel {
    TransitionModel { notices: seq![], next }
}

/// The transition that ends a download with an error.
pub open spec fn failing(error: ErrorModel) -> TransitionModel {
    quietly(StepModel::Finished(Err(error)))
}

/// How a download starts. A link that does not resolve ends it at once. A
/// link that gives an extension names its file, and the final path is
/// looked at first; one that gives none has its name probed.
pub open spec fn first_step(
    raw_link: Seq<char>,
    output_dir: Seq<char>,
    accept: Option<Seq<char>>,
) -> TransitionModel {
    if !resolvable(raw_link) {
        failing(ErrorModel::UnresolvableLink { message: raw_link })
    } else {
        let link = resolved(raw_link);
        match link.extension {
            Some(extension) => quietly(
                StepModel::FinalCheck(
                    job_for(link.url, link.filename_without_extension, extension, output_dir, accept),
                ),
            ),
            None => quietly(StepModel::NameProbe(SeedModel { link, output_dir, accept })),
        }
    }
}

/// The log line for a header that names a file without extension.
pub open spec fn header_without_extension_line(filename: Seq<char>, url: Seq<char>) -> Seq<
    char,
> {
    "Could not determine file extension based on header "@ + filename + " for "@ + url
}

/// The log line for a link whose extension no probe could find.
pub open spec fn placeholder_line(url: Seq<char>) -> Seq<char> {
    "Using placeholder file extension as it could not be determined for "@ + url
}

/// The job of a seed once stem and extension are settled.
pub open spec fn named(seed: SeedModel, stem: Seq<char>, extension: Seq<char>) -> StepModel {
    StepModel::FinalCheck(job_for(seed.link.url, stem, extension, seed.output_dir, seed.accept))
}

/// After the name probe. A status other than success ends the download. A
/// `Content-Disposition` that names a file settles the name: with its
/// extension, or, logged, with the link's own stem and the placeholder.
/// Without such a header the redirect probe follows.
pub open spec fn after_name_probe(seed: SeedModel, status: u16, headers: HeaderMap)
    -> TransitionModel {
    if !success_status(status) {
        failing(status_failure(status))
    } else {
        match announced_filename(headers) {
            Some(filename) => match split_extension(filename) {
                (Some(extension), stem) => quietly(named(seed, stem, extension)),
                (None, stem) => TransitionModel {
                    notices: seq![
                        NoticeModel::Log(header_without_extension_line(stem, seed.link.url)),
                    ],
                    next: named(
                        seed,
                        seed.link.filename_without_extension,
                        placeholder_extension(),
                    ),
                },
            },
            None => quietly(StepModel::RedirectProbe(seed)),
        }
    }
}

/// The fallback of name discovery: the link's own stem with the
/// placeholder, and a log line that says so.
pub open spec fn placeholder_fallback(seed: SeedModel) -> TransitionModel {
    TransitionModel {
        notices: seq![NoticeModel::Log(placeholder_line(seed.link.url))],
        next: named(seed, seed.link.filename_without_extension, placeholder_extension()),
    }
}

/// After the redirect probe. Where the response redirects to a place, that
/// place must resolve; if it has an extension, it names the file with its
/// stem and extension. In every other case discovery has failed: the link's
/// own stem and the placeholder are used, and this is logged.
pub open spec fn after_redirect_probe(seed: SeedModel, status: u16, headers: HeaderMap)
    -> TransitionModel {
    match redirect_target(status, headers) {
        None => placeholder_fallback(seed),
        Some(place) => if !resolvable(place) {
            failing(ErrorModel::UnresolvableLink { message: place })
        } else {
            let target = resolved(place);
            match target.extension {
                Some(extension) => quietly(
                    named(seed, target.filename_without_extension, extension),
                ),
                None => placeholder_fallback(seed),
            }
        },
    }
}

/// After looking at the final path. A file that stands there is complete:
/// the download ends well with its size, and no request is made. Otherwise
/// the headers are probed.
pub open spec fn after_final_check(job: JobModel, size: Option<u64>) -> TransitionModel {
    match size {
        Some(size) => quietly(
            StepModel::Finished(
                Ok(SummaryModel { filename: job.filename, size, already_complete: true }),
            ),
        ),
        None => quietly(StepModel::HeaderProbe(job)),
    }
}

/// With length and range support known: label the progress handle, set its
/// length if known, and look at the part file.
pub open spec fn beginning(
    job: JobModel,
    content_length: Option<u64>,
    accept_ranges: Option<Seq<char>>,
) -> TransitionModel {
    TransitionModel {
        notices: match content_length {
            Some(total) => seq![
                NoticeModel::SetMessage(job.filename),
                NoticeModel::SetLength(total),
            ],
            None => seq![NoticeModel::SetMessage(job.filename)],
        },
        next: StepModel::PartCheck { job, content_length, accept_ranges },
    }
}

/// What follows a probe's findings.
pub open spec fn after_probe(job: JobModel, probe: ProbeModel) -> TransitionModel {
    match probe {
        ProbeModel::Retry => quietly(StepModel::FullProbe(job)),
        ProbeModel::Known { content_length, accept_ranges } => beginning(
            job,
            content_length,
            accept_ranges,
        ),
    }
}

/// After the header probe. A status other than success ends the download;
/// an announced length of zero asks for the full probe.
pub open spec fn after_header_probe(job: JobModel, status: u16, headers: HeaderMap)
    -> TransitionModel {
    if !success_status(status) {
        failing(status_failure(status))
    } else {
        after_probe(job, light_probe(headers))
    }
}

/// After the full probe: its headers are taken as they are.
pub open spec fn after_full_probe(job: JobModel, headers: HeaderMap) -> TransitionModel {
    after_probe(job, full_probe(headers))
}

/// After looking at the part file, of size `part_size` if it exists: the
/// resume decision, what it shows, and the part file to open.
pub open spec fn after_part_check(
    job: JobModel,
    content_length: Option<u64>,
    accept_ranges: Option<Seq<char>>,
    part_size: Option<u64>,
) -> TransitionModel {
    let decision = resume_decision(part_size, content_length, accept_ranges);
    TransitionModel {
        notices: resume_notices(decision, accept_ranges, job.temp_path, part_size),
        next: StepModel::PartOpen { job, decision, range: range_for(decision, content_length) },
    }
}

/// After the body request. A status other than success ends the download;
/// otherwise the body is streamed.
pub open spec fn after_body_request(job: JobModel, status: u16) -> TransitionModel {
    if !success_status(status) {
        failing(status_failure(status))
    } else {
        quietly(StepModel::Streaming(job))
    }
}

/// What a read from the body gave.
#[derive(Debug, Clone, Copy, PartialEq, Eq, Structural)]
pub enum ChunkRead {
    /// A chunk of so many bytes.
    Data(u64),
    /// The body has ended.
    End,
    /// Nothing arrived within the per-chunk timeout.
    TimedOut,
}

/// After reading from the body: a chunk is stored; the end of the body
/// leads to measuring the part file; a read that timed out ends the
/// download with `TimedOut`, however much of the body had arrived.
pub open spec fn after_chunk(job: JobModel, chunk: ChunkRead) -> TransitionModel {
    match chunk {
        ChunkRead::Data(len) => quietly(StepModel::Storing { job, len }),
        ChunkRead::End => quietly(StepModel::Measuring(job)),
        ChunkRead::TimedOut => failing(ErrorModel::TimedOut),
    }
}

/// After a chunk is flushed to the part file: progress advances by its
/// length, and the next chunk is read.
pub open spec fn after_store(job: JobModel, len: u64) -> TransitionModel {
    TransitionModel { notices: seq![NoticeModel::Advance(len)], next: StepModel::Streaming(job) }
}

/// After measuring the part file: what is left is the rename.
pub open spec fn after_measure(job: JobModel, size: u64) -> TransitionModel {
    quietly(StepModel::Publishing { job, size })
}

/// After the rename: the download ends well.
pub open spec fn after_publish(job: JobModel, size: u64) -> TransitionModel {
    quietly(
        StepModel::Finished(
            Ok(SummaryModel { filename: job.filename, size, already_complete: false }),
        ),
    )
}

/// Every job that a step carries is well formed.
pub open spec fn sound(step: StepModel) -> bool {
    match step {
        StepModel::Finished(_) => true,
        StepModel::NameProbe(_) => true,
        StepModel::RedirectProbe(_) => true,
        StepModel::FinalCheck(job) => well_formed(job),
        StepModel::HeaderProbe(job) => well_formed(job),
        StepModel::FullProbe(job) => well_formed(job),
        StepModel::PartCheck { job, .. } => well_formed(job),
        StepModel::PartOpen { job, .. } => well_formed(job),
        StepModel::BodyRequest { job, .. } => well_formed(job),
        StepModel::Streaming(job) => well_formed(job),
        StepModel::Storing { job, .. } => well_formed(job),
        StepModel::Measuring(job) => well_formed(job),
        StepModel::Publishing { job, .. } => well_formed(job),
    }
}

/// The job that a step works on, once the file has its name.
pub open spec fn job_of(step: StepModel) -> Option<JobModel> {
    match step {
        StepModel::Finished(_) => None,
        StepModel::NameProbe(_) => None,
        StepModel::RedirectProbe(_) => None,
        StepModel::FinalCheck(job) => Some(job),
        StepModel::HeaderProbe(job) => Some(job),
        StepModel::FullProbe(job) => Some(job),
        StepModel::PartCheck { job, .. } => Some(job),
        StepModel::PartOpen { job, .. } => Some(job),
        StepModel::BodyRequest { job, .. } => Some(job),
        StepModel::Streaming(job) => Some(job),
        StepModel::Storing { job, .. } => Some(job),
        StepModel::Measuring(job) => Some(job),
        StepModel::Publishing { job, .. } => Some(job),
    }
}

/// Whether a step's work is a request to the server.
pub open spec fn asks_network(step: StepModel) -> bool {
    ||| step is NameProbe
    ||| step is RedirectProbe
    ||| step is HeaderProbe
    ||| step is FullProbe
    ||| step is BodyRequest
    ||| step is Streaming
}

/// The path at which a step's work creates or changes a file, if it does:
/// opening and filling the part file, and the rename, which puts a file at
/// the final path.
pub open spec fn written_path(step: StepModel) -> Option<Seq<char>> {
    match step {
        StepModel::PartOpen { job, .. } => Some(job.temp_path),
        StepModel::Storing { job, .. } => Some(job.temp_path),
        StepModel::Publishing { job, .. } => Some(job.final_path),
        _ => None,
    }
}

/// The protocol as a relation: `t` is a decision that some answer to the
/// work of `prev` leads to. Each `answer` of the executable protocol
/// returns one of these.
pub open spec fn follows(prev: StepModel, t: TransitionModel) -> bool {
    match prev {
        StepModel::Finished(_) => false,
        StepModel::NameProbe(seed) => exists|status: u16, headers: HeaderMap|
            t == #[trigger] after_name_probe(seed, status, headers),
        StepModel::RedirectProbe(seed) => exists|status: u16, headers: HeaderMap|
            t == #[trigger] after_redirect_probe(seed, status, headers),
        StepModel::FinalCheck(job) => exists|size: Option<u64>|
            t == #[trigger] after_final_check(job, size),
        StepModel::HeaderProbe(job) => exists|status: u16, headers: HeaderMap|
            t == #[trigger] after_header_probe(job, status, headers),
        StepModel::FullProbe(job) => exists|headers: HeaderMap|
            t == #[trigger] after_full_probe(job, headers),
        StepModel::PartCheck { job, content_length, accept_ranges } => exists|
            part_size: Option<u64>,
        |
            t == #[trigger] after_part_check(job, content_length, accept_ranges, part_size),
        StepModel::PartOpen { job, range, .. } => t == quietly(
            StepModel::BodyRequest { job, range },
        ),
        StepModel::BodyRequest { job, .. } => exists|status: u16|
            t == #[trigger] after_body_request(job, status),
        StepModel::Streaming(job) => exists|chunk: ChunkRead|
            t == #[trigger] after_chunk(job, chunk),
        StepModel::Storing { job, len } => t == after_store(job, len),
        StepModel::Measuring(job) => exists|size: u64|
            t == #[trigger] after_measure(job, size),
        StepModel::Publishing { job, size } => t == after_publish(job, size),
    }
}

/// A file that stands at the final path ends the download at once: it
/// succeeds with the size found on disk, shows nothing, and no request is
/// made after the look at the disk.
pub proof fn law_completed_file_ends_the_download(job: JobModel, size: u64)
    ensures
        after_final_check(job, Some(size)) == quietly(
            StepModel::Finished(
                Ok(SummaryModel { filename: job.filename, size, already_complete: true }),
            ),
        ),
        !asks_network(after_final_check(job, Some(size)).next),
{
}

/// A link that names its extension is downloaded again without any request
/// when its file is complete: the first step looks at the final path, and
/// finding the file there ends the download well with the size on disk.
pub proof fn law_rerun_makes_no_request(
    raw_link: Seq<char>,
    output_dir: Seq<char>,
    accept: Option<Seq<char>>,
    size: u64,
)
    requires
        resolvable(raw_link),
        resolved(raw_link).extension.is_some(),
    ensures
        first_step(raw_link, output_dir, accept).notices.len() == 0,
        first_step(raw_link, output_dir, accept).next matches StepModel::FinalCheck(job) && {
            &&& job.url == trimmed_link(raw_link)
            &&& !asks_network(StepModel::FinalCheck(job))
            &&& after_final_check(job, Some(size)).next == StepModel::Finished(
                Ok(SummaryModel { filename: job.filename, size, already_complete: true }),
            )
        },
{
}

/// The link as it is requested: the raw link without white space around it.
pub open spec fn trimmed_link(raw_link: Seq<char>) -> Seq<char> {
    resolved(raw_link).url
}

/// Discovery that finds no extension keeps the link's own name. When the
/// redirect probe gives no place, or a place without extension, the file is
/// saved under the stem of the link itself with the placeholder, in the
/// output directory, and the fallback is logged; what the place is called
/// plays no part.
pub proof fn law_failed_discovery_keeps_the_stem(seed: SeedModel, status: u16, headers: HeaderMap)
    requires
        match redirect_target(status, headers) {
            None => true,
            Some(place) => resolvable(place) && resolved(place).extension.is_none(),
        },
    ensures
        after_redirect_probe(seed, status, headers) == placeholder_fallback(seed),
        after_redirect_probe(seed, status, headers).notices == seq![
            NoticeModel::Log(placeholder_line(seed.link.url)),
        ],
        after_redirect_probe(seed, status, headers).next matches StepModel::FinalCheck(job) && {
            &&& job.url == seed.link.url
            &&& job.filename == seed.link.filename_without_extension + "."@
                + placeholder_extension()
            &&& job.final_path == seed.output_dir + "/"@ + job.filename
            &&& job.temp_path == job.final_path + ".part"@
        },
{
}

/// Resuming starts where the part file ends. With a part file of `size`
/// bytes, an announced length of at least that, and `Accept-Ranges: bytes`,
/// the progress position is set to `size` and the clock restarted, the
/// part file is opened to append, and the body request carries the range
/// that starts at `size`.
pub proof fn law_resume_starts_at_part_size(job: JobModel, size: u64, length: u64)
    requires
        size <= length,
    ensures
        after_part_check(job, Some(length), Some("bytes"@), Some(size)) == (TransitionModel {
            notices: seq![NoticeModel::SetPosition(size), NoticeModel::ResetElapsed],
            next: StepModel::PartOpen {
                job,
                decision: ResumeDecision::Resume(size),
                range: Some(range_text(size, length)),
            },
        }),
        follows(
            StepModel::PartOpen {
                job,
                decision: ResumeDecision::Resume(size),
                range: Some(range_text(size, length)),
            },
            quietly(
                StepModel::BodyRequest { job, range: Some(range_text(size, length)) },
            ),
        ),
        range_text(size, length) == "bytes="@ + decimal(size as nat)
            + "-"@ + decimal(length as nat),
{
}

/// Without confirmed range support, or without a known length, a part file
/// is not continued: whatever its size, the transfer restarts. This is
/// logged, the position is set to zero, the part file is opened to be
/// emptied, and the body request carries no range, so the body is written
/// from its first byte.
pub proof fn law_restart_begins_at_zero(
    job: JobModel,
    size: u64,
    content_length: Option<u64>,
    accept_ranges: Option<Seq<char>>,
)
    requires
        !ranges_confirmed(accept_ranges) || content_length.is_none(),
    ensures
        after_part_check(job, content_length, accept_ranges, Some(size)) == (TransitionModel {
            notices: seq![
                NoticeModel::Log(restart_line(job.temp_path, size)),
                NoticeModel::SetPosition(0),
            ],
            next: StepModel::PartOpen { job, decision: ResumeDecision::Restart, range: None },
        }),
        follows(
            StepModel::PartOpen { job, decision: ResumeDecision::Restart, range: None },
            quietly(StepModel::BodyRequest { job, range: None }),
        ),
{
    let decision = resume_decision(Some(size), content_length, accept_ranges);
    assert(decision == ResumeDecision::Restart);
    assert(Some(size).unwrap_or(0) == size);
    assert(resume_notices(decision, accept_ranges, job.temp_path, Some(size)) =~= seq![
        NoticeModel::Log(restart_line(job.temp_path, size)),
        NoticeModel::SetPosition(0),
    ]);
}

/// Only the rename puts a file at the final path: of all the work that
/// creates or changes a file, every other piece names the part file, which
/// is another path.
pub proof fn law_only_the_rename_writes_the_final_path(step: StepModel)
    requires
        sound(step),
        job_of(step).is_some(),
        written_path(step) == Some(job_of(step).unwrap().final_path),
    ensures
        step is Publishing,
{
    let job = job_of(step).unwrap();
    if !(step is Publishing) {
        assert(job.temp_path.len() == job.final_path.len() + ".part"@.len());
        reveal_strlit(".part");
    }
}

/// The rename comes only after the body has been read to its end: the
/// rename follows nothing but the measuring of the part file, and that
/// follows nothing but a read that found the body at its end. A download
/// never starts with either.
pub proof fn law_rename_follows_the_whole_body(prev: StepModel, t: TransitionModel)
    requires
        follows(prev, t),
    ensures
        t.next is Publishing ==> prev is Measuring && job_of(prev) == job_of(t.next),
        t.next is Measuring ==> prev is Streaming && t == after_chunk(
            prev->Streaming_0,
            ChunkRead::End,
        ),
        forall|raw_link: Seq<char>, output_dir: Seq<char>, accept: Option<Seq<char>>|
            !(#[trigger] first_step(raw_link, output_dir, accept).next is Publishing) && !(
            first_step(raw_link, output_dir, accept).next is Measuring),
{
}

} // verus!
