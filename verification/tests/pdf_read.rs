use std::hash::Hash;
use std::hash::Hasher;
use std::path::PathBuf;
use zeroclaw_tools::pdf_read::effective_max_chars;
use zeroclaw_tools::pdf_read::shape_text;
use zeroclaw_tools::pdf_read::ExtractionReply;
use zeroclaw_tools::pdf_read::FetchReply;
use zeroclaw_tools::pdf_read::PdfReadArgs;
use zeroclaw_tools::pdf_read::PdfReadStep;
use zeroclaw_tools::pdf_read::PdfReadTool;
use zeroclaw_tools::pdf_read::ResponseHead;
use zeroclaw_tools::pdf_read::StoreReply;
use zeroclaw_tools::pdf_read::RemoteBody;
use zeroclaw_tools::pdf_read::RemoteFetch;
use zeroclaw_tools::pdf_read::PathResolve;
use zeroclaw_tools::pdf_read::Extraction;
use zeroclaw_tools::pdf_read::DEFAULT_MAX_CHARS;
use zeroclaw_tools::pdf_read::MAX_OUTPUT_CHARS;
use zeroclaw_tools::tool::ToolResult;
use zeroclaw_tools::tool::Failure;

fn tool() -> PdfReadTool<()> {
    PdfReadTool::new(())
}

fn path_args(p: &str) -> PdfReadArgs {
    PdfReadArgs { path: Some(p.into()), max_chars: None }
}

fn finished(step: PdfReadStep) -> Result<ToolResult, Failure> {
    match step {
        PdfReadStep::Finished(o) => o,
        _ => panic!("expected the run to be over"),
    }
}

fn error_text(step: PdfReadStep) -> String {
    let r = finished(step).ok().expect("expected a tool result");
    assert!(!r.success);
    r.error.unwrap_or_default()
}

/// Runs a request through both rate checks, with the answers given.
fn after_rate(args: &PdfReadArgs, limited: bool, recorded: bool) -> PdfReadStep {
    let check = match tool().start(args) {
        PdfReadStep::CheckRateLimit(c) => c,
        _ => panic!("expected a rate check"),
    };
    match check.resume(limited) {
        PdfReadStep::RecordAction(a) => a.resume(recorded),
        other => other,
    }
}

/// Runs a local request up to path resolution.
fn up_to_resolve(p: &str) -> PathResolve {
    match after_rate(&path_args(p), false, true) {
        PdfReadStep::CheckPath(c) => match c.resume(true) {
            PdfReadStep::ResolvePath(r) => r,
            _ => panic!("expected path resolution"),
        },
        _ => panic!("expected a path check"),
    }
}

#[test]
fn name_is_pdf_read() {
    assert_eq!(tool().name(), "pdf_read");
}

#[test]
fn description_not_empty() {
    assert!(!tool().description().is_empty());
}

#[test]
fn missing_path_param_returns_error() {
    let args = PdfReadArgs { path: None, max_chars: None };
    match finished(tool().start(&args)) {
        Err(f) => assert!(f.message.contains("path")),
        Ok(_) => panic!("expected an error"),
    }
}

#[test]
fn absolute_path_is_blocked() {
    let step = match after_rate(&path_args("/etc/passwd"), false, true) {
        PdfReadStep::CheckPath(c) => {
            assert_eq!(c.path(), "/etc/passwd");
            c.resume(false)
        }
        _ => panic!("expected a path check"),
    };
    let err = error_text(step);
    assert!(err.contains("not allowed"));
    assert_eq!(err, "Path not allowed by security policy: /etc/passwd");
}

#[test]
fn path_traversal_is_blocked() {
    let step = match after_rate(&path_args("../../../etc/passwd"), false, true) {
        PdfReadStep::CheckPath(c) => c.resume(false),
        _ => panic!("expected a path check"),
    };
    assert!(error_text(step).contains("not allowed"));
}

#[test]
fn nonexistent_file_returns_error() {
    let r = up_to_resolve("does_not_exist.pdf");
    let err = error_text(r.resume(Err("No such file or directory (os error 2)".into())));
    assert!(err.contains("Failed to resolve"));
    assert_eq!(err, "Failed to resolve file path: No such file or directory (os error 2)");
}

#[test]
fn rate_limit_blocks_request() {
    let err = error_text(after_rate(&path_args("any.pdf"), true, true));
    assert!(err.contains("Rate limit"));
    let err = error_text(after_rate(&path_args("any.pdf"), false, false));
    assert!(err.contains("Rate limit"));
    assert_eq!(err, "Rate limit exceeded: action budget exhausted");
}

#[test]
fn probing_nonexistent_consumes_rate_limit_budget() {
    // A budget of two actions, kept by the caller as the policy would.
    let mut used = 0u32;
    let budget = 2u32;
    let mut run = |p: &str| -> String {
        let check = match tool().start(&path_args(p)) {
            PdfReadStep::CheckRateLimit(c) => c,
            _ => panic!("expected a rate check"),
        };
        let record = match check.resume(used >= budget) {
            PdfReadStep::RecordAction(a) => a,
            other => return error_text(other),
        };
        used += 1;
        match record.resume(used <= budget) {
            PdfReadStep::CheckPath(c) => match c.resume(true) {
                PdfReadStep::ResolvePath(r) => error_text(r.resume(Err("No such file".into()))),
                _ => panic!("expected resolution"),
            },
            other => error_text(other),
        }
    };
    assert!(run("a.pdf").contains("Failed to resolve"));
    assert!(run("b.pdf").contains("Failed to resolve"));
    let r3 = run("c.pdf");
    assert!(r3.contains("Rate limit"), "expected rate limit, got: {:?}", r3);
}

#[test]
fn symlink_escape_is_blocked() {
    let r = up_to_resolve("link.pdf");
    let check = match r.resume(Ok(PathBuf::from("/tmp/outside/secret.pdf"))) {
        PdfReadStep::CheckResolved(c) => c,
        _ => panic!("expected a resolved-path check"),
    };
    assert_eq!(check.resolved(), &PathBuf::from("/tmp/outside/secret.pdf"));
    let msg = "Resolved path escapes workspace allowlist: /tmp/outside/secret.pdf".to_string();
    assert!(error_text(check.resume(Err(msg))).contains("escapes workspace"));
}

fn local_extraction(p: &str, len: u64) -> Extraction {
    let check = match up_to_resolve(p).resume(Ok(PathBuf::from("/w/doc.pdf"))) {
        PdfReadStep::CheckResolved(c) => c,
        _ => panic!("expected a resolved-path check"),
    };
    let meta = match check.resume(Ok(())) {
        PdfReadStep::ReadMetadata(m) => m,
        _ => panic!("expected a metadata read"),
    };
    let read = match meta.resume(Ok(len)) {
        PdfReadStep::ReadFile(f) => f,
        _ => panic!("expected a file read"),
    };
    match read.resume(Ok(b"%PDF-1.4 fake".to_vec())) {
        PdfReadStep::Extract(x) => x,
        _ => panic!("expected extraction"),
    }
}

#[test]
fn local_file_over_limit_is_refused() {
    let check = match up_to_resolve("big.pdf").resume(Ok(PathBuf::from("/w/big.pdf"))) {
        PdfReadStep::CheckResolved(c) => c,
        _ => panic!("expected a resolved-path check"),
    };
    let meta = match check.resume(Ok(())) {
        PdfReadStep::ReadMetadata(m) => m,
        _ => panic!("expected a metadata read"),
    };
    assert_eq!(
        error_text(meta.resume(Ok(52_428_801))),
        "PDF too large: 52428801 bytes (limit: 52428800 bytes)"
    );
}

#[test]
fn extracted_text_is_returned() {
    let mut x = local_extraction("test.pdf", 13);
    assert_eq!(x.max_chars(), DEFAULT_MAX_CHARS);
    assert_eq!(x.take_bytes(), b"%PDF-1.4 fake".to_vec());
    let r = finished(x.resume(ExtractionReply::Text("Hello PDF".into()))).ok().unwrap();
    assert!(r.success);
    assert_eq!(r.output, "Hello PDF");
}

#[test]
fn blank_text_reports_no_extractable_text() {
    let x = local_extraction("empty.pdf", 13);
    let r = finished(x.resume(ExtractionReply::Text(" \n\t ".into()))).ok().unwrap();
    assert!(r.success);
    assert!(r.output.contains("no extractable text"));
}

#[test]
fn extraction_failures_are_refusals() {
    let x = local_extraction("bad.pdf", 13);
    assert_eq!(error_text(x.resume(ExtractionReply::Failed("bad xref".into()))), "PDF extraction failed: bad xref");
    let x = local_extraction("bad.pdf", 13);
    assert_eq!(error_text(x.resume(ExtractionReply::Panicked("task panicked".into()))), "PDF extraction task panicked: task panicked");
}

#[test]
fn truncation_respects_limit() {
    let out = shape_text("Hello PDF world".into(), 5);
    assert_eq!(out, "Hello\n\n... [truncated at 5 chars]");
    assert!(out.chars().count() <= 5 + "[truncated".len() + 50);
    assert_eq!(shape_text("Hello".into(), 5), "Hello");
    assert_eq!(shape_text("héllo wörld".into(), 4), "héll\n\n... [truncated at 4 chars]");
}

#[test]
fn max_chars_is_capped() {
    assert_eq!(effective_max_chars(None), DEFAULT_MAX_CHARS);
    assert_eq!(effective_max_chars(Some(5)), 5);
    assert_eq!(effective_max_chars(Some(200_000)), 200_000);
    assert_eq!(effective_max_chars(Some(u64::MAX)), MAX_OUTPUT_CHARS);
}

#[test]
fn urls_are_recognised() {
    assert!(PdfReadTool::<()>::is_url("http://x/a.pdf"));
    assert!(PdfReadTool::<()>::is_url("https://x/a.pdf"));
    assert!(!PdfReadTool::<()>::is_url("httpx://x"));
    assert!(!PdfReadTool::<()>::is_url("docs/a.pdf"));
}

fn head(ok: bool, ct: Option<&str>, cl: Option<u64>) -> ResponseHead {
    ResponseHead {
        status_ok: ok,
        status: if ok { "200 OK".into() } else { "404 Not Found".into() },
        content_type: ct.map(String::from),
        content_length: cl,
    }
}

fn remote_fetch() -> RemoteFetch {
    match after_rate(&path_args("https://x.test/doc.pdf"), false, true) {
        PdfReadStep::FetchRemote(f) => f,
        _ => panic!("expected a fetch"),
    }
}

fn remote_body(ct: Option<&str>) -> RemoteBody {
    match remote_fetch().resume(FetchReply::Responded(head(true, ct, None))) {
        PdfReadStep::ReadRemoteBody(b) => b,
        _ => panic!("expected the body to be read"),
    }
}

#[test]
fn remote_head_checks() {
    let f = remote_fetch();
    assert_eq!(f.url(), "https://x.test/doc.pdf");
    assert_eq!(f.user_agent(), "ZeroClaw/0.5 pdf_read");
    assert_eq!(
        error_text(remote_fetch().resume(FetchReply::ClientFailed("tls".into()))),
        "Failed to build HTTP client: tls"
    );
    assert_eq!(
        error_text(remote_fetch().resume(FetchReply::SendFailed("dns".into()))),
        "Failed to download PDF from URL: dns"
    );
    assert_eq!(
        error_text(remote_fetch().resume(FetchReply::Responded(head(false, None, None)))),
        "PDF download failed with HTTP 404 Not Found from https://x.test/doc.pdf"
    );
    assert_eq!(
        error_text(remote_fetch().resume(FetchReply::Responded(head(true, Some("text/html"), None)))),
        "URL does not appear to serve a PDF (content-type: text/html)"
    );
    assert_eq!(
        error_text(remote_fetch().resume(FetchReply::Responded(head(true, Some("application/pdf"), Some(60_000_000))))),
        "Remote PDF too large: 60000000 bytes (limit: 52428800 bytes)"
    );
    let _ = remote_body(Some("application/octet-stream"));
    let _ = remote_body(Some(""));
    let _ = remote_body(None);
}

#[test]
fn remote_body_checks_and_store() {
    assert_eq!(
        error_text(remote_body(None).resume(Err("reset".into()))),
        "Failed to read PDF response body: reset"
    );
    assert_eq!(
        error_text(remote_body(None).resume(Ok(b"<html>".to_vec()))),
        "Downloaded file does not appear to be a PDF (missing %PDF header)"
    );
    let store = match remote_body(None).resume(Ok(b"%PDF-1.7 data".to_vec())) {
        PdfReadStep::StoreDownload(s) => s,
        _ => panic!("expected the download to be stored"),
    };
    assert_eq!(store.directory(), ".pdf_downloads");
    let name = store.file_name().to_string();
    assert_eq!(name.len(), 20);
    assert!(name.ends_with(".pdf"));
    assert!(name[..16].chars().all(|c| c.is_ascii_hexdigit() && !c.is_ascii_uppercase()));
    assert_eq!(store.bytes(), b"%PDF-1.7 data");
    let read = match store.resume(StoreReply::Stored) {
        PdfReadStep::ReadDownloaded(d) => d,
        _ => panic!("expected the download to be read back"),
    };
    assert_eq!(read.file_name(), name);
    assert_eq!(
        error_text(read.resume(Err("gone".into()))),
        "Failed to read downloaded PDF: gone"
    );
}

#[test]
fn store_failures_are_refusals() {
    let store = || match remote_body(None).resume(Ok(b"%PDF".to_vec())) {
        PdfReadStep::StoreDownload(s) => s,
        _ => panic!("expected the download to be stored"),
    };
    assert_eq!(error_text(store().resume(StoreReply::DirFailed("ro".into()))), "Failed to create download directory: ro");
    assert_eq!(error_text(store().resume(StoreReply::WriteFailed("full".into()))), "Failed to write downloaded PDF: full");
}

#[test]
fn same_url_gives_same_download_name() {
    let name = || match remote_body(None).resume(Ok(b"%PDF".to_vec())) {
        PdfReadStep::StoreDownload(s) => s.file_name().to_string(),
        _ => panic!("expected the download to be stored"),
    };
    assert_eq!(name(), name());
}

#[test]
fn schema_has_path_required() {
    let schema = tool().parameters_schema();
    assert!(schema.params.iter().any(|p| p.name == "path"));
    let max = schema.params.iter().find(|p| p.name == "max_chars").unwrap();
    assert_eq!(max.minimum, Some(1));
    assert_eq!(max.maximum, Some(200_000));
    assert!(schema.required.contains(&"path".to_string()));
}

#[test]
fn download_name_is_the_url_hash() {
    let name = match remote_body(None).resume(Ok(b"%PDF".to_vec())) {
        PdfReadStep::StoreDownload(s) => s.file_name().to_string(),
        _ => panic!("expected the download to be stored"),
    };
    let mut h = std::collections::hash_map::DefaultHasher::new();
    "https://x.test/doc.pdf".hash(&mut h);
    assert_eq!(name, format!("{:016x}.pdf", h.finish()));
}
