use statichost::handler::{handle_step, HandleStep};
use statichost::parse::{extract_request_path, ExtractOutcome};
use statichost::processor::{default_not_found_page, ProcessorInner, ProcessorPair};
use statichost::resolve::{
    join_paths, normalize_request_path, resolve_begin, resolve_step, ProbeOutcome, ResolveState,
};

#[test]
fn extract_full_request() {
    let buf = b"GET /index.html HTTP/1.1\r\nHost: example\r\n\r\n";
    assert_eq!(
        extract_request_path(buf),
        ExtractOutcome::Found(b"/index.html".to_vec())
    );
}

#[test]
fn extract_path_before_headers_complete() {
    let buf = b"GET /assets/app.js HTTP/1.1\r\nHost: incompl";
    assert_eq!(
        extract_request_path(buf),
        ExtractOutcome::Found(b"/assets/app.js".to_vec())
    );
}

#[test]
fn extract_needs_more_bytes() {
    assert_eq!(extract_request_path(b""), ExtractOutcome::NeedMore);
    assert_eq!(extract_request_path(b"GET"), ExtractOutcome::NeedMore);
    assert_eq!(extract_request_path(b"GET /inde"), ExtractOutcome::NeedMore);
}

#[test]
fn extract_malformed_missing_version() {
    assert_eq!(extract_request_path(b"GET /x\r\n"), ExtractOutcome::Malformed);
}

#[test]
fn extract_malformed_empty_method() {
    assert_eq!(
        extract_request_path(b" / HTTP/1.1\r\n"),
        ExtractOutcome::Malformed
    );
}

#[test]
fn extract_malformed_space_in_path() {
    assert_eq!(
        extract_request_path(b"GET /a b HTTP/1.1\r\n"),
        ExtractOutcome::Malformed
    );
}

#[test]
fn extract_malformed_header_name() {
    assert_eq!(
        extract_request_path(b"GET / HTTP/1.1\r\nBad Header: x\r\n\r\n"),
        ExtractOutcome::Malformed
    );
}

#[test]
fn extract_bad_version_wins_over_available_path() {
    assert_eq!(
        extract_request_path(b"GET / XTTP/1.1\r\n\r\n"),
        ExtractOutcome::Malformed
    );
}

#[test]
fn handler_answers_malformed_with_bad_request() {
    assert_eq!(
        handle_step(b"GET /x\r\n"),
        HandleStep::Respond(b"HTTP/1.1 400 Bad Request\r\ncontent-length: 0\r\n\r\n".to_vec())
    );
}

#[test]
fn handler_dispatches_complete_path() {
    assert_eq!(
        handle_step(b"GET /site/a.css HTTP/1.1\r\n\r\n"),
        HandleStep::Dispatch(b"/site/a.css".to_vec())
    );
}

#[test]
fn handler_rejects_path_without_separator() {
    assert_eq!(
        handle_step(b"OPTIONS * HTTP/1.1\r\n\r\n"),
        HandleStep::Respond(b"HTTP/1.1 400 Bad Request\r\ncontent-length: 0\r\n\r\n".to_vec())
    );
}

#[test]
fn handler_keeps_reading_an_incomplete_line() {
    assert_eq!(handle_step(b"GET /part"), HandleStep::ReadMore);
}

#[test]
fn normalize_root_becomes_index() {
    assert_eq!(normalize_request_path(&b"/".to_vec()), b"index.html".to_vec());
}

#[test]
fn normalize_strips_leading_separator() {
    assert_eq!(normalize_request_path(&b"/foo/bar".to_vec()), b"foo/bar".to_vec());
}

#[test]
fn join_inserts_single_separator() {
    assert_eq!(join_paths(&b"root".to_vec(), &b"foo".to_vec()), b"root/foo".to_vec());
    assert_eq!(join_paths(&b"root/".to_vec(), &b"foo".to_vec()), b"root/foo".to_vec());
    assert_eq!(join_paths(&b"".to_vec(), &b"foo".to_vec()), b"foo".to_vec());
    assert_eq!(join_paths(&b"root".to_vec(), &b"/abs".to_vec()), b"/abs".to_vec());
}

#[test]
fn resolve_existing_file() {
    let s = resolve_begin(None, b"root".to_vec(), b"/page.html".to_vec());
    assert_eq!(
        s,
        ResolveState::ProbePrimary { joined: b"root/page.html".to_vec() }
    );
    let s = resolve_step(s, ProbeOutcome::FileOpened);
    assert_eq!(s, ResolveState::Resolved { path: b"root/page.html".to_vec() });
}

#[test]
fn resolve_directory_index_fallback() {
    let s = resolve_begin(None, b"root".to_vec(), b"/dir".to_vec());
    assert_eq!(s, ResolveState::ProbePrimary { joined: b"root/dir".to_vec() });
    let s = resolve_step(s, ProbeOutcome::NotFound);
    assert_eq!(
        s,
        ResolveState::ProbeIndex { index: b"root/dir/./index.html".to_vec() }
    );
    let s = resolve_step(s, ProbeOutcome::FileOpened);
    assert_eq!(
        s,
        ResolveState::Resolved { path: b"root/dir/./index.html".to_vec() }
    );
}

#[test]
fn resolve_directory_opens_then_index() {
    let s = resolve_begin(None, b"root".to_vec(), b"/dir".to_vec());
    let s = resolve_step(s, ProbeOutcome::IsDirectory);
    assert_eq!(
        s,
        ResolveState::ProbeIndex { index: b"root/dir/./index.html".to_vec() }
    );
    let s = resolve_step(s, ProbeOutcome::NotFound);
    assert_eq!(s, ResolveState::Miss);
}

#[test]
fn resolve_root_request_targets_index() {
    let s = resolve_begin(None, b".".to_vec(), b"/".to_vec());
    assert_eq!(s, ResolveState::ProbePrimary { joined: b"./index.html".to_vec() });
}

#[test]
fn resolve_other_error_is_miss() {
    let s = resolve_begin(None, b"root".to_vec(), b"/secret".to_vec());
    let s = resolve_step(s, ProbeOutcome::OtherError);
    assert_eq!(s, ResolveState::Miss);
}

#[test]
fn resolve_cached_hit_served_as_cached() {
    let s = resolve_begin(
        Some(b"root/a.html".to_vec()),
        b"root".to_vec(),
        b"/a.html".to_vec(),
    );
    assert!(matches!(s, ResolveState::ProbeCached { .. }));
    let s = resolve_step(s, ProbeOutcome::FileOpened);
    assert_eq!(s, ResolveState::Resolved { path: b"root/a.html".to_vec() });
}

#[test]
fn resolve_stale_cache_falls_through_to_fresh_resolution() {
    let s = resolve_begin(
        Some(b"root/deleted.html".to_vec()),
        b"root".to_vec(),
        b"/deleted.html".to_vec(),
    );
    let s = resolve_step(s, ProbeOutcome::NotFound);
    assert_eq!(
        s,
        ResolveState::ProbePrimary { joined: b"root/deleted.html".to_vec() }
    );
    let s = resolve_step(s, ProbeOutcome::NotFound);
    let s = resolve_step(s, ProbeOutcome::NotFound);
    assert_eq!(s, ResolveState::Miss);
}

#[test]
fn processor_starts_resolution_from_recorded_entry() {
    let p = ProcessorInner::root(b"/srv".to_vec());
    let path = b"/a.html".to_vec();
    let s = p.begin_resolution(&path);
    assert_eq!(s, ResolveState::ProbePrimary { joined: b"/srv/a.html".to_vec() });

    p.record_resolution(&path, &b"/srv/a.html".to_vec());
    let s = p.begin_resolution(&path);
    assert_eq!(
        s,
        ResolveState::ProbeCached {
            cached: b"/srv/a.html".to_vec(),
            root: b"/srv".to_vec(),
            path: b"/a.html".to_vec(),
        }
    );
}

#[test]
fn processor_not_found_reply_uses_configured_page() {
    let p = ProcessorInner::root(b"/srv".to_vec());
    let page = default_not_found_page();
    let reply = p.not_found_reply();
    assert!(reply.ends_with(&page));
    let expected_head = format!(
        "HTTP/1.1 404 Not Found\r\ncontent-type: text/html\r\ncontent-length: {}\r\n\r\n",
        page.len()
    );
    assert!(reply.starts_with(expected_head.as_bytes()));
}

#[test]
fn pair_reset_and_switch_publishes_defaults() {
    let mut pair = ProcessorPair::root(b"/srv".to_vec());
    assert_eq!(pair.active_index(), 0);
    assert_eq!(pair.active_slot().root_path, b"/srv".to_vec());

    pair.reset_and_switch();
    assert_eq!(pair.active_index(), 1);
    assert_eq!(pair.active_slot().root_path, b".".to_vec());
    assert_eq!(pair.active_slot().not_found_page, default_not_found_page());
    // the previously active slot keeps its configuration for in-flight work
    assert_eq!(pair.slot0.root_path, b"/srv".to_vec());
}

#[test]
fn pair_reset_unused_leaves_active_slot_untouched() {
    let mut pair = ProcessorPair::root(b"/data".to_vec());
    let reset_index = pair.reset_unused();
    assert_eq!(reset_index, 1);
    assert_eq!(pair.active_index(), 0);
    assert_eq!(pair.slot0.root_path, b"/data".to_vec());
    assert_eq!(pair.slot1.root_path, b".".to_vec());
}
