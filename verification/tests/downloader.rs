use dlm::downloader::download;
use dlm::downloader::download_link;
use dlm::protocol::ChunkRead;
use dlm::downloader::FinalCheck;
use dlm::downloader::PartCheck;
use dlm::downloader::Step;
use dlm::downloader::Summary;
use dlm::downloader::Transition;
use dlm::error::DlmError;
use dlm::headers::ResponseHead;
use dlm::notice::Notice;
use dlm::orchestrator::count_non_empty_lines;
use dlm::orchestrator::Admission;
use dlm::orchestrator::Orchestrator;
use reqwest::header::HeaderMap;
use reqwest::header::HeaderValue;

fn head(status: u16, pairs: &[(&'static str, &'static str)]) -> ResponseHead {
    let mut headers = HeaderMap::new();
    for (name, value) in pairs {
        headers.insert(*name, HeaderValue::from_static(value));
    }
    ResponseHead::new(status, headers).unwrap()
}

fn name_of(step: &Step) -> &'static str {
    match step {
        Step::Finished(_) => "Finished",
        Step::NameProbe(_) => "NameProbe",
        Step::RedirectProbe(_) => "RedirectProbe",
        Step::FinalCheck(_) => "FinalCheck",
        Step::HeaderProbe(_) => "HeaderProbe",
        Step::FullProbe(_) => "FullProbe",
        Step::PartCheck(_) => "PartCheck",
        Step::PartOpen(_) => "PartOpen",
        Step::BodyRequest(_) => "BodyRequest",
        Step::Streaming(_) => "Streaming",
        Step::Storing(_) => "Storing",
        Step::Measuring(_) => "Measuring",
        Step::Publishing(_) => "Publishing",
    }
}

fn final_check(t: Transition) -> FinalCheck {
    match t.next {
        Step::FinalCheck(check) => check,
        other => panic!("expected a look at the final path, got {}", name_of(&other)),
    }
}

fn part_check(t: Transition) -> PartCheck {
    match t.next {
        Step::PartCheck(check) => check,
        other => panic!("expected a look at the part file, got {}", name_of(&other)),
    }
}

fn finished(t: Transition) -> Result<Summary, DlmError> {
    match t.next {
        Step::Finished(end) => end,
        other => panic!("expected the end, got {}", name_of(&other)),
    }
}

/// Runs a transfer from the look at the part file to its end, with a body
/// of the given chunks, and returns the notices shown and the summary.
fn transfer(check: PartCheck, part_size: Option<u64>, chunks: &[u64], size: u64) -> (Vec<Notice>, bool, Option<String>, Summary) {
    let mut shown: Vec<Notice> = Vec::new();
    let mut t = check.answer(part_size);
    shown.append(&mut t.notices);
    let open = match t.next {
        Step::PartOpen(open) => open,
        other => panic!("expected the part file to be opened, got {}", name_of(&other)),
    };
    let appends = open.appends();
    let mut t = open.answer();
    shown.append(&mut t.notices);
    let request = match t.next {
        Step::BodyRequest(request) => request,
        other => panic!("expected the body request, got {}", name_of(&other)),
    };
    let range = request.range().clone();
    let mut t = request.answer(&head(if range.is_some() { 206 } else { 200 }, &[]));
    shown.append(&mut t.notices);
    let mut streaming = match t.next {
        Step::Streaming(s) => s,
        other => panic!("expected streaming, got {}", name_of(&other)),
    };
    for len in chunks {
        let mut t = streaming.answer(ChunkRead::Data(*len));
        shown.append(&mut t.notices);
        let storing = match t.next {
            Step::Storing(s) => s,
            other => panic!("expected storing, got {}", name_of(&other)),
        };
        let mut t = storing.answer();
        shown.append(&mut t.notices);
        streaming = match t.next {
            Step::Streaming(s) => s,
            other => panic!("expected streaming, got {}", name_of(&other)),
        };
    }
    let mut t = streaming.answer(ChunkRead::End);
    shown.append(&mut t.notices);
    let measuring = match t.next {
        Step::Measuring(m) => m,
        other => panic!("expected measuring, got {}", name_of(&other)),
    };
    let mut t = measuring.answer(size);
    shown.append(&mut t.notices);
    let publishing = match t.next {
        Step::Publishing(p) => p,
        other => panic!("expected the rename, got {}", name_of(&other)),
    };
    assert_eq!(publishing.job().final_path().to_string() + ".part", *publishing.job().temp_path());
    let mut t = publishing.answer();
    shown.append(&mut t.notices);
    (shown, appends, range, finished(t).unwrap())
}

#[test]
fn link_with_extension_names_its_paths() {
    let t = download("https://example.com/a.zip", "out", None);
    assert!(t.notices.is_empty());
    let check = final_check(t);
    assert_eq!(check.job().url(), "https://example.com/a.zip");
    assert_eq!(check.job().filename(), "a.zip");
    assert_eq!(check.job().final_path(), "out/a.zip");
    assert_eq!(check.job().temp_path(), "out/a.zip.part");
    assert_eq!(*check.job().accept(), None);
}

#[test]
fn accept_header_is_carried_along() {
    let accept = "application/zip".to_string();
    let check = final_check(download("https://example.com/a.zip", "out", Some(&accept)));
    assert_eq!(*check.job().accept(), Some("application/zip".to_string()));
}

#[test]
fn unresolvable_link_ends_the_download() {
    let t = download("https://example.com/dir/", "out", None);
    assert!(t.notices.is_empty());
    assert_eq!(
        finished(t),
        Err(DlmError::UnresolvableLink { message: "https://example.com/dir/".to_string() })
    );
}

#[test]
fn cancelled_download_does_not_start() {
    let t = download_link("https://example.com/a.zip", "out", true, None);
    assert!(t.notices.is_empty());
    assert_eq!(finished(t), Err(DlmError::ProgramInterrupted));
    let t = download_link("https://example.com/a.zip", "out", false, None);
    assert_eq!(final_check(t).job().final_path(), "out/a.zip");
}

#[test]
fn completed_file_is_reported_without_any_request() {
    let t = final_check(download("https://example.com/a.zip", "out", None)).answer(Some(1234));
    assert!(t.notices.is_empty());
    let summary = finished(t).unwrap();
    assert_eq!(
        summary,
        Summary { filename: "a.zip".to_string(), size: 1234, already_complete: true }
    );
    assert_eq!(
        summary.message("1.21 KiB"),
        "Skipping a.zip because the file is already completed [1.21 KiB]"
    );
}

#[test]
fn missing_file_is_probed() {
    let t = final_check(download("https://example.com/a.zip", "out", None)).answer(None);
    assert!(t.notices.is_empty());
    match t.next {
        Step::HeaderProbe(probe) => assert_eq!(probe.job().url(), "https://example.com/a.zip"),
        other => panic!("expected the header probe, got {}", name_of(&other)),
    }
}

fn after_probe(pairs: &[(&'static str, &'static str)]) -> Transition {
    let t = final_check(download("https://example.com/a.zip", "out", None)).answer(None);
    match t.next {
        Step::HeaderProbe(probe) => probe.answer(&head(200, pairs)),
        other => panic!("expected the header probe, got {}", name_of(&other)),
    }
}

#[test]
fn failed_probe_ends_the_download() {
    let t = final_check(download("https://example.com/a.zip", "out", None)).answer(None);
    let t = match t.next {
        Step::HeaderProbe(probe) => probe.answer(&head(404, &[("content-length", "10")])),
        other => panic!("expected the header probe, got {}", name_of(&other)),
    };
    assert!(t.notices.is_empty());
    assert_eq!(
        finished(t),
        Err(DlmError::ResponseStatusNotSuccess { status_code: "404 Not Found".to_string() })
    );
}

#[test]
fn probe_labels_the_progress_and_sets_its_length() {
    let t = after_probe(&[("content-length", "10"), ("accept-ranges", "bytes")]);
    assert_eq!(t.notices, vec![Notice::SetMessage("a.zip".to_string()), Notice::SetLength(10)]);
    assert_eq!(name_of(&t.next), "PartCheck");
    let t = after_probe(&[]);
    assert_eq!(t.notices, vec![Notice::SetMessage("a.zip".to_string())]);
    assert_eq!(name_of(&t.next), "PartCheck");
}

#[test]
fn probe_with_length_zero_is_repeated_in_full() {
    let t = after_probe(&[("content-length", "0"), ("accept-ranges", "bytes")]);
    assert!(t.notices.is_empty());
    let full = match t.next {
        Step::FullProbe(full) => full,
        other => panic!("expected the full probe, got {}", name_of(&other)),
    };
    assert_eq!(full.job().url(), "https://example.com/a.zip");
    let t = full.answer(&head(200, &[("content-length", "10"), ("accept-ranges", "bytes")]));
    assert_eq!(t.notices, vec![Notice::SetMessage("a.zip".to_string()), Notice::SetLength(10)]);
    let (shown, appends, range, _) = transfer(part_check(t), Some(4), &[6], 10);
    assert!(appends);
    assert_eq!(range, Some("bytes=4-10".to_string()));
    assert_eq!(shown[0], Notice::SetPosition(4));
}

#[test]
fn full_probe_that_still_says_zero_is_taken_at_its_word() {
    let t = after_probe(&[("content-length", "0")]);
    let full = match t.next {
        Step::FullProbe(full) => full,
        other => panic!("expected the full probe, got {}", name_of(&other)),
    };
    let t = full.answer(&head(500, &[("content-length", "0")]));
    assert_eq!(t.notices, vec![Notice::SetMessage("a.zip".to_string()), Notice::SetLength(0)]);
    assert_eq!(name_of(&t.next), "PartCheck");
}

#[test]
fn fresh_transfer_runs_to_completion() {
    let check = part_check(after_probe(&[("content-length", "10"), ("accept-ranges", "bytes")]));
    assert_eq!(check.job().temp_path(), "out/a.zip.part");
    let (shown, appends, range, summary) = transfer(check, None, &[4, 6], 10);
    assert!(!appends);
    assert_eq!(range, None);
    assert_eq!(shown, vec![Notice::Advance(4), Notice::Advance(6)]);
    assert_eq!(
        summary,
        Summary { filename: "a.zip".to_string(), size: 10, already_complete: false }
    );
    assert_eq!(summary.message("10 B"), "Completed a.zip [10 B]");
}

#[test]
fn resumed_transfer_starts_at_the_size_of_the_part_file() {
    let check = part_check(after_probe(&[("content-length", "10"), ("accept-ranges", "bytes")]));
    let (shown, appends, range, summary) = transfer(check, Some(4), &[6], 10);
    assert!(appends);
    assert_eq!(range, Some("bytes=4-10".to_string()));
    assert_eq!(
        shown,
        vec![Notice::SetPosition(4), Notice::ResetElapsed, Notice::Advance(6)]
    );
    assert_eq!(summary.size, 10);
    assert!(!summary.already_complete);
}

#[test]
fn transfer_restarts_when_ranges_are_not_confirmed() {
    let check = part_check(after_probe(&[("content-length", "10")]));
    let (shown, appends, range, summary) = transfer(check, Some(4), &[10], 10);
    assert!(!appends);
    assert_eq!(range, None);
    assert_eq!(
        shown,
        vec![
            Notice::Log(
                "Found part file out/a.zip.part with size 4 but it will be overridden because the server does not support resuming the download (range bytes)"
                    .to_string()
            ),
            Notice::SetPosition(0),
            Notice::Advance(10),
        ]
    );
    assert_eq!(summary.size, 10);
}

#[test]
fn transfer_restarts_when_the_length_is_unknown() {
    let check = part_check(after_probe(&[("accept-ranges", "bytes")]));
    let (shown, appends, range, _) = transfer(check, Some(4), &[], 0);
    assert!(!appends);
    assert_eq!(range, None);
    assert_eq!(shown.len(), 2);
    assert_eq!(shown[1], Notice::SetPosition(0));
}

#[test]
fn fresh_transfer_warns_when_it_cannot_be_resumed_later() {
    let check = part_check(after_probe(&[("content-length", "10")]));
    let (shown, _, _, _) = transfer(check, None, &[10], 10);
    assert_eq!(
        shown,
        vec![
            Notice::Log(
                "The download of file out/a.zip.part should not be interrupted because the server does not support resuming the download (range bytes)"
                    .to_string()
            ),
            Notice::Advance(10),
        ]
    );
}

#[test]
fn failed_body_request_ends_the_download_with_its_status() {
    let check = part_check(after_probe(&[("content-length", "10"), ("accept-ranges", "bytes")]));
    let open = match check.answer(Some(4)).next {
        Step::PartOpen(open) => open,
        other => panic!("expected the part file to be opened, got {}", name_of(&other)),
    };
    let request = match open.answer().next {
        Step::BodyRequest(request) => request,
        other => panic!("expected the body request, got {}", name_of(&other)),
    };
    assert_eq!(request.job().url(), "https://example.com/a.zip");
    let t = request.answer(&head(416, &[]));
    assert!(t.notices.is_empty());
    assert_eq!(
        finished(t),
        Err(DlmError::ResponseStatusNotSuccess {
            status_code: "416 Range Not Satisfiable".to_string()
        })
    );
}

#[test]
fn read_that_times_out_ends_the_download() {
    let check = part_check(after_probe(&[("content-length", "10"), ("accept-ranges", "bytes")]));
    let open = match check.answer(None).next {
        Step::PartOpen(open) => open,
        other => panic!("expected the part file to be opened, got {}", name_of(&other)),
    };
    let request = match open.answer().next {
        Step::BodyRequest(request) => request,
        other => panic!("expected the body request, got {}", name_of(&other)),
    };
    let streaming = match request.answer(&head(200, &[])).next {
        Step::Streaming(s) => s,
        other => panic!("expected streaming, got {}", name_of(&other)),
    };
    let storing = match streaming.answer(ChunkRead::Data(4)).next {
        Step::Storing(s) => s,
        other => panic!("expected storing, got {}", name_of(&other)),
    };
    let streaming = match storing.answer().next {
        Step::Streaming(s) => s,
        other => panic!("expected streaming, got {}", name_of(&other)),
    };
    let t = streaming.answer(ChunkRead::TimedOut);
    assert!(t.notices.is_empty());
    assert_eq!(finished(t), Err(DlmError::TimedOut));
}

#[test]
fn only_the_rename_names_the_final_path() {
    let check = part_check(after_probe(&[("content-length", "10"), ("accept-ranges", "bytes")]));
    let open = match check.answer(None).next {
        Step::PartOpen(open) => open,
        other => panic!("expected the part file to be opened, got {}", name_of(&other)),
    };
    assert_eq!(open.job().temp_path(), "out/a.zip.part");
    assert_ne!(open.job().temp_path(), open.job().final_path());
    let request = match open.answer().next {
        Step::BodyRequest(request) => request,
        other => panic!("expected the body request, got {}", name_of(&other)),
    };
    let streaming = match request.answer(&head(200, &[])).next {
        Step::Streaming(s) => s,
        other => panic!("expected streaming, got {}", name_of(&other)),
    };
    let storing = match streaming.answer(ChunkRead::Data(10)).next {
        Step::Storing(s) => s,
        other => panic!("expected storing, got {}", name_of(&other)),
    };
    assert_eq!(storing.job().temp_path(), "out/a.zip.part");
    let streaming = match storing.answer().next {
        Step::Streaming(s) => s,
        other => panic!("expected streaming, got {}", name_of(&other)),
    };
    assert_eq!(streaming.job().temp_path(), "out/a.zip.part");
    let measuring = match streaming.answer(ChunkRead::End).next {
        Step::Measuring(m) => m,
        other => panic!("the rename must wait for the end of the body, got {}", name_of(&other)),
    };
    assert_eq!(measuring.job().temp_path(), "out/a.zip.part");
    match measuring.answer(10).next {
        Step::Publishing(p) => {
            assert_eq!(p.job().temp_path(), "out/a.zip.part");
            assert_eq!(p.job().final_path(), "out/a.zip");
        }
        other => panic!("expected the rename, got {}", name_of(&other)),
    }
}

fn name_probe(raw: &str) -> dlm::downloader::NameProbe {
    match download(raw, "out", None).next {
        Step::NameProbe(probe) => probe,
        other => panic!("expected the name probe, got {}", name_of(&other)),
    }
}

#[test]
fn name_comes_from_the_disposition_header() {
    let probe = name_probe("https://example.com/b");
    assert_eq!(probe.url(), "https://example.com/b");
    let t = probe.answer(&head(
        200,
        &[("content-disposition", "attachment; filename=\"code-stable-x64-1639562789.tar.gz\"")],
    ));
    assert!(t.notices.is_empty());
    let check = final_check(t);
    assert_eq!(check.job().url(), "https://example.com/b");
    assert_eq!(check.job().final_path(), "out/code-stable-x64-1639562789.tar.gz");
}

#[test]
fn header_name_without_extension_falls_back_to_the_placeholder() {
    let probe = name_probe("https://example.com/b");
    let t = probe.answer(&head(200, &[("content-disposition", "attachment; filename=\"README\"")]));
    assert_eq!(
        t.notices,
        vec![Notice::Log(
            "Could not determine file extension based on header README for https://example.com/b"
                .to_string()
        )]
    );
    assert_eq!(final_check(t).job().final_path(), "out/b.NO_EXTENSION_FOUND");
}

#[test]
fn failed_name_probe_ends_the_download() {
    let t = name_probe("https://example.com/b").answer(&head(500, &[]));
    assert_eq!(
        finished(t),
        Err(DlmError::ResponseStatusNotSuccess {
            status_code: "500 Internal Server Error".to_string()
        })
    );
}

fn redirect_probe(raw: &str) -> dlm::downloader::RedirectProbe {
    match name_probe(raw).answer(&head(200, &[])).next {
        Step::RedirectProbe(probe) => probe,
        other => panic!("expected the redirect probe, got {}", name_of(&other)),
    }
}

#[test]
fn name_comes_from_where_the_link_redirects_to() {
    let probe = redirect_probe("https://example.com/b");
    assert_eq!(probe.url(), "https://example.com/b");
    let t = probe.answer(&head(302, &[("location", "https://cdn.example.com/files/pkg.tar.gz")]));
    assert!(t.notices.is_empty());
    let check = final_check(t);
    assert_eq!(check.job().url(), "https://example.com/b");
    assert_eq!(check.job().final_path(), "out/pkg.tar.gz");
}

#[test]
fn redirect_without_extension_keeps_the_stem_of_the_link() {
    let t = redirect_probe("https://example.com/b")
        .answer(&head(301, &[("location", "https://cdn.example.com/files/pkg")]));
    assert_eq!(
        t.notices,
        vec![Notice::Log(
            "Using placeholder file extension as it could not be determined for https://example.com/b"
                .to_string()
        )]
    );
    let check = final_check(t);
    assert_eq!(check.job().url(), "https://example.com/b");
    assert_eq!(check.job().filename(), "b.NO_EXTENSION_FOUND");
    assert_eq!(check.job().final_path(), "out/b.NO_EXTENSION_FOUND");
    assert_eq!(check.job().temp_path(), "out/b.NO_EXTENSION_FOUND.part");
}

#[test]
fn placeholder_download_runs_to_completion() {
    let t = redirect_probe("https://example.com/b")
        .answer(&head(302, &[("location", "https://cdn.example.com/files/pkg")]));
    let probe = match final_check(t).answer(None).next {
        Step::HeaderProbe(probe) => probe,
        other => panic!("expected the header probe, got {}", name_of(&other)),
    };
    let check = part_check(probe.answer(&head(200, &[("content-length", "3"), ("accept-ranges", "bytes")])));
    assert_eq!(check.job().temp_path(), "out/b.NO_EXTENSION_FOUND.part");
    let (shown, appends, range, summary) = transfer(check, None, &[3], 3);
    assert!(!appends);
    assert_eq!(range, None);
    assert_eq!(shown, vec![Notice::Advance(3)]);
    assert_eq!(
        summary,
        Summary { filename: "b.NO_EXTENSION_FOUND".to_string(), size: 3, already_complete: false }
    );
}

#[test]
fn ranges_without_length_raise_no_advisory() {
    let check = part_check(after_probe(&[("accept-ranges", "bytes")]));
    let (shown, appends, range, _) = transfer(check, None, &[5], 5);
    assert!(!appends);
    assert_eq!(range, None);
    assert_eq!(shown, vec![Notice::Advance(5)]);
}

#[test]
fn redirect_to_an_unresolvable_place_ends_the_download() {
    let t = redirect_probe("https://example.com/b")
        .answer(&head(301, &[("location", "https://cdn.example.com/files/")]));
    assert_eq!(
        finished(t),
        Err(DlmError::UnresolvableLink { message: "https://cdn.example.com/files/".to_string() })
    );
}

#[test]
fn without_any_hint_the_placeholder_is_used_and_logged() {
    let t = redirect_probe("https://example.com/b").answer(&head(200, &[]));
    assert_eq!(
        t.notices,
        vec![Notice::Log(
            "Using placeholder file extension as it could not be determined for https://example.com/b"
                .to_string()
        )]
    );
    assert_eq!(final_check(t).job().final_path(), "out/b.NO_EXTENSION_FOUND");
    let t = redirect_probe("https://example.com/b").answer(&head(302, &[]));
    assert_eq!(final_check(t).job().final_path(), "out/b.NO_EXTENSION_FOUND");
}

#[test]
fn three_lines_one_slot() {
    let lines: Vec<String> = vec![
        "https://example.com/a.zip".to_string(),
        String::new(),
        "https://example.com/b".to_string(),
    ];
    let mut run = Orchestrator::new(1, count_non_empty_lines(&lines)).unwrap();

    assert_eq!(run.consider(Ok(lines[0].as_str())), Admission::Started { slot: 0 });
    let check = final_check(download_link(&lines[0], "out", run.is_cancelled(), None));
    assert_eq!(check.job().final_path(), "out/a.zip");
    let summary = finished(check.answer(Some(3))).unwrap();
    assert_eq!(
        run.settle(0, &lines[0], Ok(summary.message("3 B"))),
        Some("Skipping a.zip because the file is already completed [3 B]".to_string())
    );

    assert_eq!(
        run.consider(Ok(lines[1].as_str())),
        Admission::Reported { message: "Skipping empty line".to_string() }
    );
    assert_eq!(run.in_flight(), 0);

    assert_eq!(run.consider(Ok(lines[2].as_str())), Admission::Started { slot: 0 });
    let probe = match download_link(&lines[2], "out", run.is_cancelled(), None).next {
        Step::NameProbe(probe) => probe,
        other => panic!("expected the name probe, got {}", name_of(&other)),
    };
    let redirect = match probe.answer(&head(200, &[])).next {
        Step::RedirectProbe(probe) => probe,
        other => panic!("expected the redirect probe, got {}", name_of(&other)),
    };
    let check = final_check(redirect.answer(&head(200, &[])));
    assert_eq!(check.job().final_path(), "out/b.NO_EXTENSION_FOUND");
    assert_eq!(check.job().temp_path(), "out/b.NO_EXTENSION_FOUND.part");
    let _ = run.settle(0, &lines[2], Err(DlmError::TimedOut));
    assert!(run.is_idle());
    assert_eq!(run.finished_count(), 3);
    assert_eq!(run.finish(), Ok(()));
}
