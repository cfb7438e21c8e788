use dlm::headers::accept_ranges_value;
use dlm::headers::content_length_value;
use dlm::headers::parse_filename_header;
use reqwest::header::HeaderMap;
use reqwest::header::HeaderValue;

#[test]
fn parse_filename_header_ok() {
    let header_value = "attachment; filename=\"code-stable-x64-1639562789.tar.gz\"";
    let parsed = parse_filename_header(header_value);
    assert_eq!(parsed, Some("code-stable-x64-1639562789.tar.gz".to_owned()));
}

#[test]
fn parse_filename_header_without_quotes_is_none() {
    assert_eq!(parse_filename_header("attachment; filename=plain.txt"), None);
    assert_eq!(parse_filename_header("attachment; filename=\""), None);
    assert_eq!(parse_filename_header(""), None);
}

#[test]
fn parse_filename_header_takes_what_follows_the_last_marker() {
    let value = "attachment; filename=\"a.txt\"; attachment; filename=\"b.txt\"";
    assert_eq!(parse_filename_header(value), Some("b.txt".to_owned()));
    assert_eq!(parse_filename_header("\"bare.bin\""), Some("bare.bin".to_owned()));
    assert_eq!(parse_filename_header("attachment; filename=\"\""), Some(String::new()));
}

#[test]
fn content_length_is_read_as_a_number() {
    let mut headers = HeaderMap::new();
    assert_eq!(content_length_value(&headers), None);
    headers.insert("content-length", HeaderValue::from_static("1234"));
    assert_eq!(content_length_value(&headers), Some(1234));
    headers.insert("content-length", HeaderValue::from_static("12x4"));
    assert_eq!(content_length_value(&headers), None);
    headers.insert("content-length", HeaderValue::from_static("18446744073709551615"));
    assert_eq!(content_length_value(&headers), Some(u64::MAX));
    headers.insert("content-length", HeaderValue::from_static("18446744073709551616"));
    assert_eq!(content_length_value(&headers), None);
}

#[test]
fn accept_ranges_is_read_as_text() {
    let mut headers = HeaderMap::new();
    assert_eq!(accept_ranges_value(&headers), None);
    headers.insert("accept-ranges", HeaderValue::from_static("bytes"));
    assert_eq!(accept_ranges_value(&headers), Some("bytes".to_owned()));
    headers.insert("accept-ranges", HeaderValue::from_bytes(b"by\xfftes").unwrap());
    assert_eq!(accept_ranges_value(&headers), None);
    headers.insert("accept-ranges", HeaderValue::from_bytes(b"a\tb ~").unwrap());
    assert_eq!(accept_ranges_value(&headers), Some("a\tb ~".to_owned()));
    headers.insert("accept-ranges", HeaderValue::from_static(""));
    assert_eq!(accept_ranges_value(&headers), Some(String::new()));
}

fn head(status: u16, pairs: &[(&'static str, &'static str)]) -> dlm::headers::ResponseHead {
    let mut headers = HeaderMap::new();
    for (name, value) in pairs {
        headers.insert(*name, HeaderValue::from_static(value));
    }
    dlm::headers::ResponseHead::new(status, headers).unwrap()
}

#[test]
fn response_head_needs_a_status_code() {
    assert!(dlm::headers::ResponseHead::new(99, HeaderMap::new()).is_none());
    assert!(dlm::headers::ResponseHead::new(1000, HeaderMap::new()).is_none());
    assert!(dlm::headers::ResponseHead::new(0, HeaderMap::new()).is_none());
    let h = dlm::headers::ResponseHead::new(100, HeaderMap::new()).unwrap();
    assert_eq!(h.status_code(), 100);
    let h = dlm::headers::ResponseHead::new(999, HeaderMap::new()).unwrap();
    assert_eq!(h.status_code(), 999);
    assert!(h.header_map().is_empty());
}

#[test]
fn status_classes() {
    assert!(!head(199, &[]).is_success());
    assert!(head(200, &[]).is_success());
    assert!(head(206, &[]).is_success());
    assert!(head(299, &[]).is_success());
    assert!(!head(300, &[]).is_success());
    assert!(!head(299, &[]).is_redirection());
    assert!(head(300, &[]).is_redirection());
    assert!(head(399, &[]).is_redirection());
    assert!(!head(400, &[]).is_redirection());
}

#[test]
fn status_error_names_code_and_reason() {
    assert_eq!(
        head(404, &[]).status_error(),
        dlm::error::DlmError::ResponseStatusNotSuccess { status_code: "404 Not Found".to_string() }
    );
    assert_eq!(
        head(503, &[]).status_error(),
        dlm::error::DlmError::ResponseStatusNotSuccess {
            status_code: "503 Service Unavailable".to_string()
        }
    );
    assert_eq!(
        head(799, &[]).status_error(),
        dlm::error::DlmError::ResponseStatusNotSuccess {
            status_code: "799 <unknown status code>".to_string()
        }
    );
}

#[test]
fn header_names_match_whatever_their_case() {
    let mut headers = HeaderMap::new();
    headers.insert("Content-Length", HeaderValue::from_static("5"));
    assert_eq!(content_length_value(&headers), Some(5));
    headers.append("content-length", HeaderValue::from_static("6"));
    assert_eq!(content_length_value(&headers), Some(5));
}

#[test]
fn disposition_and_location_are_read_as_text() {
    let h = head(302, &[("location", "/files/b.bin"), ("content-disposition", "inline")]);
    assert_eq!(dlm::headers::location_value(h.header_map()), Some("/files/b.bin".to_string()));
    assert_eq!(
        dlm::headers::content_disposition_value(h.header_map()),
        Some("inline".to_string())
    );
    let h = head(200, &[]);
    assert_eq!(dlm::headers::location_value(h.header_map()), None);
    assert_eq!(dlm::headers::content_disposition_value(h.header_map()), None);
}

#[test]
fn filename_from_disposition_header() {
    let h = head(200, &[("content-disposition", "attachment; filename=\"b.tar.gz\"")]);
    assert_eq!(
        dlm::headers::compute_filename_from_disposition_header(&h),
        Ok(Some("b.tar.gz".to_string()))
    );
    let h = head(200, &[("content-disposition", "inline")]);
    assert_eq!(dlm::headers::compute_filename_from_disposition_header(&h), Ok(None));
    let h = head(200, &[]);
    assert_eq!(dlm::headers::compute_filename_from_disposition_header(&h), Ok(None));
    let h = head(404, &[("content-disposition", "attachment; filename=\"b.tar.gz\"")]);
    assert_eq!(
        dlm::headers::compute_filename_from_disposition_header(&h),
        Err(dlm::error::DlmError::ResponseStatusNotSuccess {
            status_code: "404 Not Found".to_string()
        })
    );
}

#[test]
fn filename_from_location_header() {
    let h = head(302, &[("location", "https://cdn.example.com/files/b.bin")]);
    assert_eq!(
        dlm::headers::compute_filename_from_location_header(&h),
        Ok(Some(dlm::file_link::FileLink {
            url: "https://cdn.example.com/files/b.bin".to_string(),
            filename_without_extension: "b".to_string(),
            extension: Some("bin".to_string()),
        }))
    );
    let h = head(302, &[]);
    assert_eq!(dlm::headers::compute_filename_from_location_header(&h), Ok(None));
    let h = head(200, &[("location", "https://cdn.example.com/files/b.bin")]);
    assert_eq!(dlm::headers::compute_filename_from_location_header(&h), Ok(None));
    let h = head(301, &[("location", "https://cdn.example.com/files/")]);
    assert_eq!(
        dlm::headers::compute_filename_from_location_header(&h),
        Err(dlm::error::DlmError::UnresolvableLink {
            message: "https://cdn.example.com/files/".to_string()
        })
    );
}

fn known(probe: dlm::headers::Probe) -> (Option<u64>, Option<String>) {
    match probe {
        dlm::headers::Probe::Known { content_length, accept_ranges } => {
            (content_length, accept_ranges)
        }
        dlm::headers::Probe::Retry => panic!("the probe asks for a full request"),
    }
}

#[test]
fn light_probe_reads_length_and_ranges() {
    let h = head(200, &[("content-length", "10"), ("accept-ranges", "bytes")]);
    assert_eq!(
        known(dlm::headers::try_hard_to_extract_headers(h.header_map())),
        (Some(10), Some("bytes".to_string()))
    );
    let h = head(200, &[("content-length", "10")]);
    assert_eq!(known(dlm::headers::try_hard_to_extract_headers(h.header_map())), (Some(10), None));
}

#[test]
fn light_probe_without_length_still_reads_ranges() {
    let h = head(200, &[("accept-ranges", "bytes")]);
    assert_eq!(
        known(dlm::headers::try_hard_to_extract_headers(h.header_map())),
        (None, Some("bytes".to_string()))
    );
    let h = head(200, &[("content-length", "ten"), ("accept-ranges", "bytes")]);
    assert_eq!(
        known(dlm::headers::try_hard_to_extract_headers(h.header_map())),
        (None, Some("bytes".to_string()))
    );
    let h = head(200, &[("accept-ranges", "none")]);
    assert_eq!(
        known(dlm::headers::try_hard_to_extract_headers(h.header_map())),
        (None, Some("none".to_string()))
    );
    let h = head(200, &[]);
    assert_eq!(known(dlm::headers::try_hard_to_extract_headers(h.header_map())), (None, None));
}

#[test]
fn light_probe_with_length_zero_asks_again() {
    let h = head(200, &[("content-length", "0"), ("accept-ranges", "bytes")]);
    assert!(matches!(
        dlm::headers::try_hard_to_extract_headers(h.header_map()),
        dlm::headers::Probe::Retry
    ));
}

#[test]
fn full_probe_takes_the_headers_as_they_are() {
    let h = head(200, &[("content-length", "0"), ("accept-ranges", "bytes")]);
    assert_eq!(
        known(dlm::headers::extract_headers_again(h.header_map())),
        (Some(0), Some("bytes".to_string()))
    );
    let h = head(200, &[("accept-ranges", "bytes")]);
    assert_eq!(
        known(dlm::headers::extract_headers_again(h.header_map())),
        (None, Some("bytes".to_string()))
    );
}
