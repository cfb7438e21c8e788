//! Reading the parts of a response that the download protocol depends on.

use crate::error::DlmError;
use crate::error::ErrorModel;
use crate::file_link::resolvable;
use crate::file_link::resolved;
use crate::file_link::FileLink;
use crate::text::chars_of;
use crate::text::decimal;
use crate::text::find_last;
use crate::text::last_occurrence;
use crate::text::parse_decimal;
use crate::text::parse_u64;
use crate::text::slice_text;
use crate::text::text_of;
use reqwest::header::HeaderMap;
use reqwest::header::HeaderValue;
use reqwest::StatusCode;
use vstd::prelude::*;

verus! {

#[verifier::external_type_specification]
#[verifier::external_body]
#[verifier::reject_recursive_types(T)]
pub struct ExHeaderMap<T>(HeaderMap<T>);

#[verifier::external_type_specification]
#[verifier::external_body]
pub struct ExHeaderValue(HeaderValue);

/// What a set of headers holds, as far as this library reads it: for each
/// name that a lookup finds, the bytes of the first value stored under it.
pub uninterp spec fn header_values(headers: HeaderMap) -> Map<Seq<char>, Seq<u8>>;

/// The bytes that a header value is made of.
pub uninterp spec fn value_bytes(value: HeaderValue) -> Seq<u8>;

/// The reason phrase that belongs to a status code, such as `Not Found`;
/// for a code without one, the words that say so.
pub uninterp spec fn status_reason(code: u16) -> Seq<char>;

/// What a status code is displayed as: the number, a space and the reason
/// phrase.
pub open spec fn status_line(code: u16) -> Seq<char> {
    decimal(code as nat) + " "@ + status_reason(code)
}

/// `HeaderMap::get` with a name given as text: the first value stored
/// under `name`, or `None` when none is. The contract only ties the result
/// to `header_values`; nothing is claimed of how names match.
#[verifier::external_body]
fn first_value<'a>(headers: &'a HeaderMap, name: &str) -> (value: Option<&'a HeaderValue>)
    ensures
        match value {
            Some(v) => header_values(*headers).contains_key(name@) && header_values(
                *headers,
            )[name@] == value_bytes(*v),
            None => !header_values(*headers).contains_key(name@),
        },
{
    headers.get(name)
}

/// `HeaderValue::to_str`: the value as text, if every byte of it is visible
/// ASCII; each byte then stands for the character of the same number.
#[verifier::external_body]
fn value_text(value: &HeaderValue) -> (text: Option<String>)
    ensures
        match text {
            Some(t) => all_visible(value_bytes(*value)) && t@ == ascii_text(value_bytes(*value)),
            None => !all_visible(value_bytes(*value)),
        },
{
    match value.to_str() {
        Ok(text) => Some(text.to_owned()),
        Err(_) => None,
    }
}

/// `StatusCode::from_u16` followed by the `Display` of `StatusCode`. The
/// conversion accepts the codes from 100 to 999, which `requires` asks for.
/// The display writes the number in base ten, a space, and the canonical
/// reason phrase of the code or, where it has none, a fixed text; the
/// phrase is a function of the code alone and is only given a name.
#[verifier::external_body]
fn status_text(code: u16) -> (text: String)
    requires
        100 <= code <= 999,
    ensures
        text@ == decimal(code as nat) + " "@ + status_reason(code),
{
    match StatusCode::from_u16(code) {
        Ok(status) => status.to_string(),
        Err(_) => String::new(),
    }
}

/// A byte that a header value may hold as text: printable ASCII, the space
/// and the tab.
pub open spec fn visible_ascii(b: u8) -> bool {
    32 <= b < 127 || b == 9
}

/// Whether every byte of a value may stand in text.
pub open spec fn all_visible(bytes: Seq<u8>) -> bool {
    forall|i: int| 0 <= i < bytes.len() ==> visible_ascii(#[trigger] bytes[i])
}

/// ASCII bytes as the characters they stand for.
pub open spec fn ascii_text(bytes: Seq<u8>) -> Seq<char> {
    Seq::new(bytes.len(), |i: int| bytes[i] as char)
}

/// The text of the first value stored under `name`: there is none where no
/// value is stored under the name, and where that value is not text.
pub open spec fn header_value(headers: HeaderMap, name: Seq<char>) -> Option<Seq<char>> {
    if header_values(headers).contains_key(name) && all_visible(header_values(headers)[name]) {
        Some(ascii_text(header_values(headers)[name]))
    } else {
        None
    }
}

/// Reads the first value stored under `name` as text.
fn header_text(headers: &HeaderMap, name: &str) -> (text: Option<String>)
    ensures
        text_of(text) == header_value(*headers, name@),
{
    match first_value(headers, name) {
        Some(value) => value_text(value),
        None => None,
    }
}

/// The length that the headers announce: the `content-length` value read as
/// a number.
pub open spec fn announced_length(headers: HeaderMap) -> Option<u64> {
    match header_value(headers, "content-length"@) {
        Some(text) => parse_u64(text),
        None => None,
    }
}

/// The length that the headers announce, if they announce one that is a
/// number.
pub fn content_length_value(headers: &HeaderMap) -> (length: Option<u64>)
    ensures
        length == announced_length(*headers),
{
    match header_text(headers, "content-length") {
        Some(text) => parse_decimal(text.as_str()),
        None => None,
    }
}

/// What the headers say of range support.
pub fn accept_ranges_value(headers: &HeaderMap) -> (value: Option<String>)
    ensures
        text_of(value) == header_value(*headers, "accept-ranges"@),
{
    header_text(headers, "accept-ranges")
}

/// What the headers say of how the body is to be kept.
pub fn content_disposition_value(headers: &HeaderMap) -> (value: Option<String>)
    ensures
        text_of(value) == header_value(*headers, "content-disposition"@),
{
    header_text(headers, "content-disposition")
}

/// Where the headers send the client on.
pub fn location_value(headers: &HeaderMap) -> (value: Option<String>)
    ensures
        text_of(value) == header_value(*headers, "location"@),
{
    header_text(headers, "location")
}

/// The words that introduce a file name in a `Content-Disposition` value.
pub open spec fn filename_marker() -> Seq<char> {
    "attachment; filename="@
}

/// What follows the last `attachment; filename=` of a header value; the
/// whole value where the words do not occur.
pub open spec fn after_marker(value: Seq<char>) -> Seq<char> {
    match last_occurrence(value, filename_marker()) {
        Some(i) => value.skip(i + filename_marker().len()),
        None => value,
    }
}

/// The file name that a `Content-Disposition` value gives: what stands
/// between double quotes after the marker. A name that is not quoted on both
/// sides is none.
pub open spec fn disposition_filename(value: Seq<char>) -> Option<Seq<char>> {
    let rest = after_marker(value);
    if rest.len() >= 2 && rest[0] == '"' && rest.last() == '"' {
        Some(rest.subrange(1, rest.len() - 1))
    } else {
        None
    }
}

/// Reads the file name out of a `Content-Disposition` value.
pub fn parse_filename_header(content_disposition: &str) -> (filename: Option<String>)
    ensures
        text_of(filename) == disposition_filename(content_disposition@),
{
    let chars = chars_of(content_disposition);
    let marker = chars_of("attachment; filename=");
    let start = match find_last(&chars, &marker) {
        Some(i) => i + marker.len(),
        None => 0,
    };
    let n = chars.len();
    let ghost rest = after_marker(content_disposition@);
    assert(rest =~= chars@.skip(start as int));
    if n - start >= 2 && chars[start] == '"' && chars[n - 1] == '"' {
        assert(rest.subrange(1, rest.len() - 1) =~= chars@.subrange(start + 1, n - 1));
        Some(slice_text(content_disposition, start + 1, n - 1))
    } else {
        None
    }
}

/// Whether a status code reports success: 200 to 299.
pub open spec fn success_status(code: u16) -> bool {
    200 <= code < 300
}

/// Whether a status code reports a redirection: 300 to 399.
pub open spec fn redirect_status(code: u16) -> bool {
    300 <= code < 400
}

/// The status and the headers of one response.
#[derive(Debug)]
pub struct ResponseHead {
    status: u16,
    headers: HeaderMap,
}

impl ResponseHead {
    #[verifier::type_invariant]
    spec fn valid(&self) -> bool {
        100 <= self.status <= 999
    }

    pub closed spec fn status(&self) -> u16 {
        self.status
    }

    pub closed spec fn headers(&self) -> HeaderMap {
        self.headers
    }

    /// A response head; `None` where `status` is no status code, that is
    /// outside 100 to 999.
    pub fn new(status: u16, headers: HeaderMap) -> (head: Option<ResponseHead>)
        ensures
            head.is_some() == (100 <= status <= 999),
            head matches Some(h) ==> h.status() == status && h.headers() == headers,
    {
        if 100 <= status && status <= 999 {
            Some(ResponseHead { status, headers })
        } else {
            None
        }
    }

    pub fn status_code(&self) -> (code: u16)
        ensures
            code == self.status(),
            100 <= code <= 999,
    {
        proof {
            use_type_invariant(self);
        }
        self.status
    }

    pub fn header_map(&self) -> (headers: &HeaderMap)
        ensures
            *headers == self.headers(),
    {
        &self.headers
    }

    pub fn is_success(&self) -> (r: bool)
        ensures
            r == success_status(self.status()),
    {
        200 <= self.status && self.status < 300
    }

    pub fn is_redirection(&self) -> (r: bool)
        ensures
            r == redirect_status(self.status()),
    {
        300 <= self.status && self.status < 400
    }

    /// The error that reports this response's status.
    pub fn status_error(&self) -> (e: DlmError)
        ensures
            e@ == status_failure(self.status()),
    {
        proof {
            use_type_invariant(self);
        }
        DlmError::ResponseStatusNotSuccess { status_code: status_text(self.status) }
    }
}

/// The error that reports a response whose status is `code`.
pub open spec fn status_failure(code: u16) -> ErrorModel {
    ErrorModel::ResponseStatusNotSuccess { status_code: status_line(code) }
}

/// The file name that a successful response announces for its body.
pub open spec fn announced_filename(headers: HeaderMap) -> Option<Seq<char>> {
    match header_value(headers, "content-disposition"@) {
        Some(value) => disposition_filename(value),
        None => None,
    }
}

/// Reads the file name out of the answer to a header-only probe. A status
/// other than success is an error; a response without a usable
/// `Content-Disposition` gives no name.
pub fn compute_filename_from_disposition_header(head: &ResponseHead) -> (name: Result<
    Option<String>,
    DlmError,
>)
    ensures
        match name {
            Ok(n) => success_status(head.status()) && text_of(n) == announced_filename(
                head.headers(),
            ),
            Err(e) => !success_status(head.status()) && e@ == status_failure(head.status()),
        },
{
    if head.is_success() {
        match content_disposition_value(head.header_map()) {
            Some(value) => Ok(parse_filename_header(value.as_str())),
            None => Ok(None),
        }
    } else {
        Err(head.status_error())
    }
}

/// Where a probe that was not allowed to follow redirects is sent on: the
/// `Location` of a response whose status is a redirection.
pub open spec fn redirect_target(status: u16, headers: HeaderMap) -> Option<Seq<char>> {
    if redirect_status(status) {
        header_value(headers, "location"@)
    } else {
        None
    }
}

/// Resolves the place that a redirection points to. A response that is no
/// redirection, or names no place, gives `None`; a place that does not
/// resolve is an error.
pub fn compute_filename_from_location_header(head: &ResponseHead) -> (link: Result<
    Option<FileLink>,
    DlmError,
>)
    ensures
        match redirect_target(head.status(), head.headers()) {
            None => link matches Ok(None),
            Some(place) => match link {
                Ok(Some(l)) => resolvable(place) && l@ == resolved(place),
                Ok(None) => false,
                Err(e) => !resolvable(place) && e@ == (ErrorModel::UnresolvableLink {
                    message: place,
                }),
            },
        },
{
    if head.is_redirection() {
        match location_value(head.header_map()) {
            None => Ok(None),
            Some(location) => match FileLink::new(location.as_str()) {
                Ok(link) => Ok(Some(link)),
                Err(e) => Err(e),
            },
        }
    } else {
        Ok(None)
    }
}

/// What the answer to a header-only probe says of the body.
#[derive(Debug, PartialEq, Eq)]
pub enum Probe {
    /// The announced length is zero: the server may not answer header-only
    /// requests properly and a full request has to be asked.
    Retry,
    /// The announced length and range support.
    Known { content_length: Option<u64>, accept_ranges: Option<String> },
}

/// A `Probe` with its text as a sequence of characters.
pub enum ProbeModel {
    Retry,
    Known { content_length: Option<u64>, accept_ranges: Option<Seq<char>> },
}

impl View for Probe {
    type V = ProbeModel;

    open spec fn view(&self) -> ProbeModel {
        match self {
            Probe::Retry => ProbeModel::Retry,
            Probe::Known { content_length, accept_ranges } => ProbeModel::Known {
                content_length: *content_length,
                accept_ranges: text_of(*accept_ranges),
            },
        }
    }
}

/// What the headers of a full request say: length and range support as
/// they stand.
pub open spec fn full_probe(headers: HeaderMap) -> ProbeModel {
    ProbeModel::Known {
        content_length: announced_length(headers),
        accept_ranges: header_value(headers, "accept-ranges"@),
    }
}

/// What the headers of a header-only request say. An announced length of
/// zero asks for a full request. In every other case length and range
/// support are read as they stand, each whether or not the other is there.
pub open spec fn light_probe(headers: HeaderMap) -> ProbeModel {
    if announced_length(headers) == Some(0u64) {
        ProbeModel::Retry
    } else {
        full_probe(headers)
    }
}

/// Range support is read whether or not a length is announced: headers
/// without a usable `content-length` still say what `accept-ranges` says.
pub proof fn law_ranges_are_read_without_length(headers: HeaderMap)
    requires
        announced_length(headers).is_none(),
    ensures
        light_probe(headers) == (ProbeModel::Known {
            content_length: None,
            accept_ranges: header_value(headers, "accept-ranges"@),
        }),
{
}

/// Reads length and range support from the answer to a header-only probe.
pub fn try_hard_to_extract_headers(head_headers: &HeaderMap) -> (probe: Probe)
    ensures
        probe@ == light_probe(*head_headers),
{
    let content_length = content_length_value(head_headers);
    let zero = match content_length {
        Some(n) => n == 0,
        None => false,
    };
    if zero {
        Probe::Retry
    } else {
        Probe::Known { content_length, accept_ranges: accept_ranges_value(head_headers) }
    }
}

/// Reads length and range support from the answer to the full request that
/// followed a probe announcing a length of zero.
pub fn extract_headers_again(get_headers: &HeaderMap) -> (probe: Probe)
    ensures
        probe@ == full_probe(*get_headers),
{
    Probe::Known {
        content_length: content_length_value(get_headers),
        accept_ranges: accept_ranges_value(get_headers),
    }
}

} // verus!
