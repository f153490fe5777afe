//! PDF text reading: the decisions of a run, from the `path` argument to
//! the text handed back, as a sequence of stages. Each stage says which
//! outside work comes next (asking the security policy, downloading a
//! remote PDF, resolving and reading a local file, extracting the text);
//! the caller does that work and hands its result to the stage, which
//! decides what follows.
use vstd::prelude::*;
use std::path::PathBuf;
use crate::filename::is_plain_name;
use crate::text::all_ws;
use crate::text::chars_of;
use crate::text::contains;
use crate::text::contains_exec;
use crate::text::decimal;
use crate::text::hex16;
use crate::text::hex16_string;
use crate::text::hex_digit;
use crate::text::is_blank;
use crate::text::push_decimal;
use crate::text::starts_with;
use crate::text::starts_with_exec;
use crate::tool::error_plain;
use crate::tool::is_error;
use crate::tool::is_refusal;
use crate::tool::is_success;
use crate::tool::refusal;
use crate::tool::success;
use crate::tool::param;
use crate::tool::param_is;
use crate::tool::ParamSchema;
use crate::tool::ParamType;
use crate::tool::ToolSchema;
use crate::tool::Failure;
use crate::tool::ToolResult;

verus! {

/// Largest PDF the tool reads (50 MB).
pub const MAX_PDF_BYTES: u64 = 50 * 1024 * 1024;

/// Characters of text handed back when the caller names no limit.
pub const DEFAULT_MAX_CHARS: usize = 50_000;

/// Characters of text handed back at most, whatever the caller asks.
pub const MAX_OUTPUT_CHARS: usize = 200_000;

/// Seconds that the download of a remote PDF may take.
pub const DOWNLOAD_TIMEOUT_SECS: u64 = 60;

/// Redirects that the download of a remote PDF may follow.
pub const DOWNLOAD_MAX_REDIRECTS: usize = 10;

/// The arguments of a run: the `path` string (absent when missing or not a
/// string) and the `max_chars` number (absent when missing or not an
/// unsigned integer).
pub struct PdfReadArgs {
    pub path: Option<String>,
    pub max_chars: Option<u64>,
}

/// The head of the HTTP response to a download.
pub struct ResponseHead {
    /// The status is a success (2xx).
    pub status_ok: bool,
    /// The status, as the HTTP client displays it.
    pub status: String,
    /// The `Content-Type` header: absent when missing, empty when it is not
    /// visible ASCII.
    pub content_type: Option<String>,
    /// The `Content-Length` header, when present.
    pub content_length: Option<u64>,
}

/// How the request for a remote PDF ended.
pub enum FetchReply {
    /// The HTTP client could not be built; its error.
    ClientFailed(String),
    /// The request could not be sent; its error.
    SendFailed(String),
    Responded(ResponseHead),
}

/// How storing a downloaded PDF in the workspace ended.
pub enum StoreReply {
    DirFailed(String),
    WriteFailed(String),
    Stored,
}

/// How the text extraction, run on a blocking thread, ended.
pub enum ExtractionReply {
    Text(String),
    /// The extractor returned an error; its message.
    Failed(String),
    /// The extraction thread did not complete; the join error.
    Panicked(String),
}

/// A request: the path (or URL) and the character limit of the answer.
pub struct RequestView {
    pub path: Seq<char>,
    pub max_chars: nat,
}

/// The character limit a request gets: the given one capped at
/// `MAX_OUTPUT_CHARS`, or `DEFAULT_MAX_CHARS`.
pub open spec fn requested_max_chars(m: Option<u64>) -> nat {
    match m {
        Some(n) => if n > MAX_OUTPUT_CHARS { MAX_OUTPUT_CHARS as nat } else { n as nat },
        None => DEFAULT_MAX_CHARS as nat,
    }
}

/// The input names a remote PDF rather than a local path.
pub open spec fn is_url_spec(p: Seq<char>) -> bool {
    starts_with(p, "http://"@) || starts_with(p, "https://"@)
}

/// The end of every size refusal.
pub open spec fn limit_suffix() -> Seq<char> {
    " bytes (limit: "@ + decimal(MAX_PDF_BYTES as nat) + " bytes)"@
}

/// Why the head of a download response stops it, if it does.
pub open spec fn head_problem(url: Seq<char>, head: ResponseHead) -> Option<Seq<char>> {
    if !head.status_ok {
        Some("PDF download failed with HTTP "@ + head.status@ + " from "@ + url)
    } else if head.content_type is Some && head.content_type->0@.len() > 0 && !contains(
        head.content_type->0@,
        "pdf"@,
    ) && !contains(head.content_type->0@, "octet-stream"@) {
        Some("URL does not appear to serve a PDF (content-type: "@ + head.content_type->0@ + ")"@)
    } else if head.content_length is Some && head.content_length->0 > MAX_PDF_BYTES {
        Some("Remote PDF too large: "@ + decimal(head.content_length->0 as nat) + limit_suffix())
    } else {
        None
    }
}

/// The bytes that start every PDF file: `%PDF`.
pub open spec fn pdf_magic() -> Seq<u8> {
    seq![0x25u8, 0x50u8, 0x44u8, 0x46u8]
}

/// Why a downloaded body is not taken as a PDF, if it is not.
pub open spec fn body_problem(body: Seq<u8>) -> Option<Seq<char>> {
    if body.len() > MAX_PDF_BYTES {
        Some("Downloaded PDF too large: "@ + decimal(body.len()) + limit_suffix())
    } else if !(body.len() >= 4 && body.take(4) == pdf_magic()) {
        Some("Downloaded file does not appear to be a PDF (missing %PDF header)"@)
    } else {
        None
    }
}

/// A lower-case hexadecimal digit.
pub open spec fn is_hex_char(c: char) -> bool {
    ('0' <= c <= '9') || ('a' <= c <= 'f')
}

/// The name a downloaded PDF is stored under: sixteen hexadecimal digits
/// and `.pdf`.
pub open spec fn is_download_name(n: Seq<char>) -> bool {
    &&& n.len() == 20
    &&& forall|i: int| 0 <= i < 16 ==> is_hex_char(#[trigger] n[i])
    &&& n.subrange(16, 20) == ".pdf"@
}

pub open spec fn no_text_message() -> Seq<char> {
    "PDF contains no extractable text (may be image-only or encrypted)"@
}

/// What follows the kept text when it is cut.
pub open spec fn truncation_notice(max_chars: nat) -> Seq<char> {
    "\n\n... [truncated at "@ + decimal(max_chars) + " chars]"@
}

/// The text handed back: all of it, or its first `max_chars` characters
/// and a notice when it is longer.
pub open spec fn shaped_text(text: Seq<char>, max_chars: nat) -> Seq<char> {
    if text.len() > max_chars {
        text.take(max_chars as int) + truncation_notice(max_chars)
    } else {
        text
    }
}

/// What a `DefaultHasher` made by `new` (unseeded: all such hashers
/// behave alike) gives for `url`. The value depends on `url` alone within
/// one build; std does not fix the algorithm across its releases.
pub uninterp spec fn url_hash(url: Seq<char>) -> u64;

/// The name a PDF downloaded from `url` is stored under: the hash of the
/// URL as sixteen hexadecimal digits, and `.pdf`.
pub open spec fn download_name(url: Seq<char>) -> Seq<char> {
    hex16(url_hash(url)) + ".pdf"@
}

/// The `DefaultHasher` hash of `url`: `BuildHasher::hash_one` of a
/// `BuildHasherDefault<DefaultHasher>`, which hashes with a hasher made by
/// `DefaultHasher::new`, feeds it `url` and finishes it. The result is the
/// value that `url_hash` names.
#[verifier::external_body]
fn url_digest(url: &str) -> (r: u64)
    ensures
        r == url_hash(url@),
{
    std::hash::BuildHasher::hash_one(
        &std::hash::BuildHasherDefault::<std::collections::hash_map::DefaultHasher>::default(),
        url,
    )
}

/// The character limit a request gets.
pub fn effective_max_chars(m: Option<u64>) -> (r: usize)
    ensures
        r == requested_max_chars(m),
        r <= MAX_OUTPUT_CHARS,
        m matches Some(n) ==> r as u64 == (if n < 200_000 { n } else { 200_000 }),
        m is None ==> r == 50_000,
{
    match m {
        Some(n) => if n > MAX_OUTPUT_CHARS as u64 { MAX_OUTPUT_CHARS } else { n as usize },
        None => DEFAULT_MAX_CHARS,
    }
}

/// The text handed back for extracted `text`.
pub fn shape_text(text: String, max_chars: usize) -> (r: String)
    ensures
        r@ == shaped_text(text@, max_chars as nat),
{
    if text.as_str().unicode_len() > max_chars {
        let mut out = String::from_str(text.as_str().substring_char(0, max_chars));
        out.append("\n\n... [truncated at ");
        push_decimal(&mut out, max_chars as u64);
        out.append(" chars]");
        out
    } else {
        text
    }
}

/// A request that has its path.
struct PdfRequest {
    path: String,
    max_chars: usize,
}

impl PdfRequest {
    /// The character limit never exceeds the output cap.
    #[verifier::type_invariant]
    spec fn within_cap(self) -> bool {
        self.max_chars <= MAX_OUTPUT_CHARS
    }
}

impl View for PdfRequest {
    type V = RequestView;

    closed spec fn view(&self) -> RequestView {
        RequestView { path: self.path@, max_chars: self.max_chars as nat }
    }
}

/// The next thing a run needs: its end, or a piece of outside work.
pub enum PdfReadStep {
    /// The run is over.
    Finished(Result<ToolResult, Failure>),
    /// Ask the security policy whether the rate limit is reached.
    CheckRateLimit(RateCheck),
    /// Ask the security policy to record the action against the budget.
    RecordAction(ActionRecord),
    /// Send the request for a remote PDF.
    FetchRemote(RemoteFetch),
    /// Read the body of the response.
    ReadRemoteBody(RemoteBody),
    /// Store the downloaded PDF in the workspace.
    StoreDownload(DownloadStore),
    /// Read the stored download back.
    ReadDownloaded(DownloadedRead),
    /// Ask the security policy whether the local path is allowed.
    CheckPath(PathCheck),
    /// Resolve the path in the workspace and canonicalise it.
    ResolvePath(PathResolve),
    /// Ask the security policy whether the resolved path is allowed.
    CheckResolved(ResolvedCheck),
    /// Read the size of the file.
    ReadMetadata(MetadataRead),
    /// Read the file.
    ReadFile(FileRead),
    /// Extract the text of the PDF, on a blocking thread.
    Extract(Extraction),
}

/// The run is over with a refusal that carries `msg`.
pub open spec fn pdf_refusal(r: PdfReadStep, msg: Seq<char>) -> bool {
    r matches PdfReadStep::Finished(o) && is_refusal(o, msg)
}

/// The run is over with a success whose output is `out`.
pub open spec fn pdf_success(r: PdfReadStep, out: Seq<char>) -> bool {
    r matches PdfReadStep::Finished(o) && is_success(o, out)
}

pub struct RateCheck {
    req: PdfRequest,
}

pub struct ActionRecord {
    req: PdfRequest,
}

pub struct RemoteFetch {
    req: PdfRequest,
}

pub struct RemoteBody {
    req: PdfRequest,
}

pub struct DownloadStore {
    req: PdfRequest,
    file_name: String,
    bytes: Vec<u8>,
}

pub struct DownloadedRead {
    req: PdfRequest,
    file_name: String,
}

pub struct PathCheck {
    req: PdfRequest,
}

pub struct PathResolve {
    req: PdfRequest,
}

pub struct ResolvedCheck {
    req: PdfRequest,
    resolved: PathBuf,
}

pub struct MetadataRead {
    req: PdfRequest,
    resolved: PathBuf,
}

pub struct FileRead {
    req: PdfRequest,
    resolved: PathBuf,
}

pub struct Extraction {
    max_chars: usize,
    bytes: Vec<u8>,
}

impl Extraction {
    /// The character limit never exceeds the output cap.
    #[verifier::type_invariant]
    spec fn within_cap(self) -> bool {
        self.max_chars <= MAX_OUTPUT_CHARS
    }
}

/// The PDF reading tool, holding the host's security policy.
pub struct PdfReadTool<S> {
    security: S,
}

impl<S> PdfReadTool<S> {
    pub closed spec fn security_view(&self) -> S {
        self.security
    }

    pub fn new(security: S) -> (r: Self)
        ensures
            r.security_view() == security,
    {
        PdfReadTool { security }
    }

    pub fn security(&self) -> (r: &S)
        ensures
            *r == self.security_view(),
    {
        &self.security
    }

    /// The name under which the agent calls the tool.
    pub fn name(&self) -> (r: &'static str)
        ensures
            r@ == "pdf_read"@,
    {
        "pdf_read"
    }

    /// What the agent is told about the tool.
    pub fn description(&self) -> (r: &'static str)
        ensures
            r@ == "Extract plain text from a PDF file or URL. Accepts a local file path OR an http/https URL pointing to a PDF. Remote PDFs are downloaded automatically (max 50 MB). Returns all readable text. Image-only or encrypted PDFs return an empty result. Requires the 'rag-pdf' build feature."@,
    {
        "Extract plain text from a PDF file or URL. Accepts a local file path OR an http/https URL pointing to a PDF. Remote PDFs are downloaded automatically (max 50 MB). Returns all readable text. Image-only or encrypted PDFs return an empty result. Requires the 'rag-pdf' build feature."
    }

    /// The parameters the agent may give: a required `path`, and
    /// `max_chars`, an integer from 1 to the output cap.
    pub fn parameters_schema(&self) -> (r: ToolSchema)
        ensures
            r.required.deep_view() == seq!["path"@],
            r.params@.len() == 2,
            param_is(
                r.params@[0],
                "path"@,
                ParamType::Str,
                "Path to the PDF file, or an HTTP/HTTPS URL to a remote PDF. Local relative paths resolve from workspace; outside paths require policy allowlist. URLs are downloaded automatically."@,
                Seq::empty(),
                None,
                None,
            ),
            param_is(
                r.params@[1],
                "max_chars"@,
                ParamType::Integer,
                "Maximum characters to return (default: 50000, max: 200000)"@,
                Seq::empty(),
                Some(1),
                Some(MAX_OUTPUT_CHARS as u64),
            ),
    {
        let ghost empty: Seq<Seq<char>> = Seq::empty();
        let mut params: Vec<ParamSchema> = Vec::new();
        let no_choices: Vec<String> = Vec::new();
        assert(no_choices.deep_view() =~= empty);
        params.push(
            param(
                "path",
                ParamType::Str,
                "Path to the PDF file, or an HTTP/HTTPS URL to a remote PDF. Local relative paths resolve from workspace; outside paths require policy allowlist. URLs are downloaded automatically.",
                no_choices,
                None,
                None,
            ),
        );
        let no_choices: Vec<String> = Vec::new();
        assert(no_choices.deep_view() =~= empty);
        params.push(
            param(
                "max_chars",
                ParamType::Integer,
                "Maximum characters to return (default: 50000, max: 200000)",
                no_choices,
                Some(1),
                Some(MAX_OUTPUT_CHARS as u64),
            ),
        );
        let mut required: Vec<String> = Vec::new();
        required.push(String::from_str("path"));
        assert(required.deep_view() =~= seq!["path"@]);
        ToolSchema { params, required }
    }

    /// Whether `path` names a remote PDF (`http://` or `https://`) rather
    /// than a local path.
    pub fn is_url(path: &str) -> (b: bool)
        ensures
            b == is_url_spec(path@),
            b == ((path@.len() >= "http://"@.len() && path@.take("http://"@.len() as int)
                == "http://"@) || (path@.len() >= "https://"@.len() && path@.take(
                "https://"@.len() as int,
            ) == "https://"@)),
    {
        proof {
            lemma_url_is_http_prefix(path@);
        }
        let cs = chars_of(path);
        let http = chars_of("http://");
        let https = chars_of("https://");
        starts_with_exec(cs.as_slice(), http.as_slice()) || starts_with_exec(
            cs.as_slice(),
            https.as_slice(),
        )
    }

    /// Starts a run with the agent's arguments. Without a path the run
    /// fails; otherwise the rate limit is consulted first.
    pub fn start(&self, args: &PdfReadArgs) -> (r: PdfReadStep)
        ensures
            args.path is None ==> (r matches PdfReadStep::Finished(o) && is_error(
                o,
                "Missing 'path' parameter"@,
                None,
            )),
            args.path matches Some(p) ==> (r matches PdfReadStep::CheckRateLimit(c) && c.request()
                == (RequestView { path: p@, max_chars: requested_max_chars(args.max_chars) })),
    {
        match &args.path {
            None => PdfReadStep::Finished(error_plain(String::from_str("Missing 'path' parameter"))),
            Some(p) => PdfReadStep::CheckRateLimit(
                RateCheck {
                    req: PdfRequest { path: p.clone(), max_chars: effective_max_chars(args.max_chars) },
                },
            ),
        }
    }
}

/// `lead` followed by `detail`: the message of a refusal that reports a
/// lower-level error.
fn with_detail(lead: &str, detail: &str) -> (r: String)
    ensures
        r@ == lead@ + detail@,
{
    let mut m = String::from_str(lead);
    m.append(detail);
    m
}

/// `lead`, the decimal `n`, and the size limit.
fn too_large(lead: &str, n: u64) -> (r: String)
    ensures
        r@ == lead@ + decimal(n as nat) + limit_suffix(),
{
    let mut m = String::from_str(lead);
    push_decimal(&mut m, n);
    m.append(" bytes (limit: ");
    push_decimal(&mut m, MAX_PDF_BYTES);
    m.append(" bytes)");
    m
}

impl RateCheck {
    pub closed spec fn request(&self) -> RequestView {
        self.req@
    }

    /// Goes on with whether the rate limit is reached.
    pub fn resume(self, limited: bool) -> (r: PdfReadStep)
        ensures
            limited ==> pdf_refusal(r, "Rate limit exceeded: too many actions in the last hour"@),
            !limited ==> (r matches PdfReadStep::RecordAction(a) && a.request() == self.request()),
    {
        if limited {
            PdfReadStep::Finished(
                refusal(String::from_str("Rate limit exceeded: too many actions in the last hour")),
            )
        } else {
            PdfReadStep::RecordAction(ActionRecord { req: self.req })
        }
    }
}

impl ActionRecord {
    pub closed spec fn request(&self) -> RequestView {
        self.req@
    }

    /// Goes on with whether the action fit the budget. Only a recorded
    /// action reaches the network or the file system: a URL is fetched,
    /// any other path is checked against the policy.
    pub fn resume(self, recorded: bool) -> (r: PdfReadStep)
        ensures
            !recorded ==> pdf_refusal(r, "Rate limit exceeded: action budget exhausted"@),
            recorded && is_url_spec(self.request().path) ==> (r matches PdfReadStep::FetchRemote(f)
                && f.request() == self.request()),
            recorded && !is_url_spec(self.request().path) ==> (r matches PdfReadStep::CheckPath(c)
                && c.request() == self.request()),
    {
        if !recorded {
            PdfReadStep::Finished(
                refusal(String::from_str("Rate limit exceeded: action budget exhausted")),
            )
        } else if PdfReadTool::<()>::is_url(self.req.path.as_str()) {
            PdfReadStep::FetchRemote(RemoteFetch { req: self.req })
        } else {
            PdfReadStep::CheckPath(PathCheck { req: self.req })
        }
    }
}

impl RemoteFetch {
    pub closed spec fn request(&self) -> RequestView {
        self.req@
    }

    /// The URL to download.
    pub fn url(&self) -> (r: &str)
        ensures
            r@ == self.request().path,
    {
        self.req.path.as_str()
    }

    /// The `User-Agent` of the download.
    pub fn user_agent(&self) -> (r: &'static str)
        ensures
            r@ == "ZeroClaw/0.5 pdf_read"@,
    {
        "ZeroClaw/0.5 pdf_read"
    }

    /// Goes on with the response head; the body is read only when the
    /// status is a success, the content type can be a PDF and the announced
    /// length is within the limit.
    pub fn resume(self, reply: FetchReply) -> (r: PdfReadStep)
        ensures
            match reply {
                FetchReply::ClientFailed(e) => pdf_refusal(
                    r,
                    "Failed to build HTTP client: "@ + e@,
                ),
                FetchReply::SendFailed(e) => pdf_refusal(
                    r,
                    "Failed to download PDF from URL: "@ + e@,
                ),
                FetchReply::Responded(head) => match head_problem(self.request().path, head) {
                    Some(msg) => pdf_refusal(r, msg),
                    None => r matches PdfReadStep::ReadRemoteBody(b) && b.request()
                        == self.request(),
                },
            },
    {
        match reply {
            FetchReply::ClientFailed(e) => PdfReadStep::Finished(
                refusal(with_detail("Failed to build HTTP client: ", e.as_str())),
            ),
            FetchReply::SendFailed(e) => PdfReadStep::Finished(
                refusal(with_detail("Failed to download PDF from URL: ", e.as_str())),
            ),
            FetchReply::Responded(head) => {
                if !head.status_ok {
                    let mut m = String::from_str("PDF download failed with HTTP ");
                    m.append(head.status.as_str());
                    m.append(" from ");
                    m.append(self.req.path.as_str());
                    return PdfReadStep::Finished(refusal(m));
                }
                if let Some(ct) = &head.content_type {
                    let cs = chars_of(ct.as_str());
                    let pdf = chars_of("pdf");
                    let octet = chars_of("octet-stream");
                    if cs.len() > 0 && !contains_exec(cs.as_slice(), pdf.as_slice())
                        && !contains_exec(cs.as_slice(), octet.as_slice()) {
                        let mut m = String::from_str(
                            "URL does not appear to serve a PDF (content-type: ",
                        );
                        m.append(ct.as_str());
                        m.append(")");
                        return PdfReadStep::Finished(refusal(m));
                    }
                }
                if let Some(cl) = head.content_length {
                    if cl > MAX_PDF_BYTES {
                        return PdfReadStep::Finished(refusal(too_large("Remote PDF too large: ", cl)));
                    }
                }
                PdfReadStep::ReadRemoteBody(RemoteBody { req: self.req })
            },
        }
    }
}

impl RemoteBody {
    pub closed spec fn request(&self) -> RequestView {
        self.req@
    }

    /// Goes on with the body: a body within the limit that starts with
    /// `%PDF` is stored under the URL's hash in hexadecimal, with `.pdf`.
    pub fn resume(self, body: Result<Vec<u8>, String>) -> (r: PdfReadStep)
        ensures
            match body {
                Err(e) => pdf_refusal(r, "Failed to read PDF response body: "@ + e@),
                Ok(b) => match body_problem(b@) {
                    Some(msg) => pdf_refusal(r, msg),
                    None => r matches PdfReadStep::StoreDownload(s) && s.request() == self.request()
                        && s.bytes_view() == b@ && s.file_name_view() == download_name(
                        self.request().path,
                    ) && is_download_name(s.file_name_view()),
                },
            },
            body is Ok && body->Ok_0@.len() > 52_428_800 ==> pdf_refusal(
                r,
                "Downloaded PDF too large: "@ + decimal(body->Ok_0@.len()) + limit_suffix(),
            ),
            r is StoreDownload ==> body is Ok && body->Ok_0@.len() <= 52_428_800
                && body->Ok_0@.len() >= 4 && body->Ok_0@[0] == 0x25u8 && body->Ok_0@[1] == 0x50u8
                && body->Ok_0@[2] == 0x44u8 && body->Ok_0@[3] == 0x46u8,
    {
        proof {
            if body is Ok {
                lemma_body_limits(body->Ok_0@);
            }
        }
        match body {
            Err(e) => PdfReadStep::Finished(
                refusal(with_detail("Failed to read PDF response body: ", e.as_str())),
            ),
            Ok(b) => {
                if b.len() as u64 > MAX_PDF_BYTES {
                    return PdfReadStep::Finished(
                        refusal(too_large("Downloaded PDF too large: ", b.len() as u64)),
                    );
                }
                let magic = b.len() >= 4 && b[0] == 0x25u8 && b[1] == 0x50u8 && b[2] == 0x44u8
                    && b[3] == 0x46u8;
                proof {
                    if b.len() >= 4 {
                        assert(magic == (b@.take(4) == pdf_magic())) by {
                            if b@.take(4) == pdf_magic() {
                                assert(b@[0] == b@.take(4)[0]);
                                assert(b@[1] == b@.take(4)[1]);
                                assert(b@[2] == b@.take(4)[2]);
                                assert(b@[3] == b@.take(4)[3]);
                            }
                            if magic {
                                assert(b@.take(4) =~= pdf_magic());
                            }
                        }
                    }
                }
                if !magic {
                    return PdfReadStep::Finished(
                        refusal(
                            String::from_str(
                                "Downloaded file does not appear to be a PDF (missing %PDF header)",
                            ),
                        ),
                    );
                }
                let mut file_name = hex16_string(url_digest(self.req.path.as_str()));
                file_name.append(".pdf");
                proof {
                    lemma_download_name(self.req.path@);
                }
                PdfReadStep::StoreDownload(DownloadStore { req: self.req, file_name, bytes: b })
            },
        }
    }
}

/// The name of a download is sixteen lower-case hexadecimal digits
/// followed by `.pdf`.
pub proof fn lemma_download_name(url: Seq<char>)
    ensures
        is_download_name(download_name(url)),
{
    let h = url_hash(url);
    let digits = hex16(h);
    let name = download_name(url);
    reveal_strlit(".pdf");
    assert(name.subrange(16, 20) =~= ".pdf"@);
    assert forall|i: int| 0 <= i < 16 implies is_hex_char(#[trigger] name[i]) by {
        assert(name[i] == digits[i]);
        let d = ((h >> ((60 - 4 * i) as u64)) & 15u64) as int;
        assert(digits[i] == hex_digit(d));
    }
}

/// Two downloads of the same URL are stored under the same name, so the
/// later one replaces the earlier.
pub proof fn lemma_same_url_same_download_name(url1: Seq<char>, url2: Seq<char>)
    requires
        url1 == url2,
    ensures
        download_name(url1) == download_name(url2),
        is_download_name(download_name(url1)),
{
    lemma_download_name(url1);
}

/// A download name stays inside the download directory.
pub proof fn lemma_download_name_is_plain(name: Seq<char>)
    requires
        is_download_name(name),
    ensures
        is_plain_name(name),
{
    reveal_strlit(".pdf");
    assert(name[16] == ".pdf"@[0]);
    assert(!name.contains('/')) by {
        if name.contains('/') {
            let k = choose|k: int| 0 <= k < name.len() && name[k] == '/';
            if k < 16 {
                assert(is_hex_char(name[k]));
            } else {
                assert(name[k] == name.subrange(16, 20)[k - 16]);
            }
        }
    }
    assert(name != seq!['.']);
    assert(name != seq!['.', '.']);
}

impl DownloadStore {
    pub closed spec fn request(&self) -> RequestView {
        self.req@
    }

    pub closed spec fn file_name_view(&self) -> Seq<char> {
        self.file_name@
    }

    pub closed spec fn bytes_view(&self) -> Seq<u8> {
        self.bytes@
    }

    /// The URL the PDF was downloaded from.
    pub fn url(&self) -> (r: &str)
        ensures
            r@ == self.request().path,
    {
        self.req.path.as_str()
    }

    /// The directory, inside the workspace, that holds downloads.
    pub fn directory(&self) -> (r: &'static str)
        ensures
            r@ == ".pdf_downloads"@,
    {
        ".pdf_downloads"
    }

    /// The name to store the download under.
    pub fn file_name(&self) -> (r: &str)
        ensures
            r@ == self.file_name_view(),
    {
        self.file_name.as_str()
    }

    /// The downloaded bytes.
    pub fn bytes(&self) -> (r: &[u8])
        ensures
            r@ == self.bytes_view(),
    {
        self.bytes.as_slice()
    }

    /// Goes on with how storing ended; a stored PDF is read back.
    pub fn resume(self, reply: StoreReply) -> (r: PdfReadStep)
        ensures
            match reply {
                StoreReply::DirFailed(e) => pdf_refusal(
                    r,
                    "Failed to create download directory: "@ + e@,
                ),
                StoreReply::WriteFailed(e) => pdf_refusal(
                    r,
                    "Failed to write downloaded PDF: "@ + e@,
                ),
                StoreReply::Stored => r matches PdfReadStep::ReadDownloaded(d) && d.request()
                    == self.request() && d.file_name_view() == self.file_name_view(),
            },
    {
        match reply {
            StoreReply::DirFailed(e) => PdfReadStep::Finished(
                refusal(with_detail("Failed to create download directory: ", e.as_str())),
            ),
            StoreReply::WriteFailed(e) => PdfReadStep::Finished(
                refusal(with_detail("Failed to write downloaded PDF: ", e.as_str())),
            ),
            StoreReply::Stored => PdfReadStep::ReadDownloaded(
                DownloadedRead { req: self.req, file_name: self.file_name },
            ),
        }
    }
}

impl DownloadedRead {
    pub closed spec fn request(&self) -> RequestView {
        self.req@
    }

    pub closed spec fn file_name_view(&self) -> Seq<char> {
        self.file_name@
    }

    /// The directory that holds the download.
    pub fn directory(&self) -> (r: &'static str)
        ensures
            r@ == ".pdf_downloads"@,
    {
        ".pdf_downloads"
    }

    /// The name the download is stored under.
    pub fn file_name(&self) -> (r: &str)
        ensures
            r@ == self.file_name_view(),
    {
        self.file_name.as_str()
    }

    /// Goes on with the bytes read back.
    pub fn resume(self, read: Result<Vec<u8>, String>) -> (r: PdfReadStep)
        ensures
            match read {
                Err(e) => pdf_refusal(r, "Failed to read downloaded PDF: "@ + e@),
                Ok(b) => r matches PdfReadStep::Extract(x) && x.bytes_view() == b@
                    && x.max_chars_view() == self.request().max_chars,
            },
    {
        match read {
            Err(e) => PdfReadStep::Finished(
                refusal(with_detail("Failed to read downloaded PDF: ", e.as_str())),
            ),
            Ok(b) => {
                proof {
                    use_type_invariant(&self.req);
                }
                PdfReadStep::Extract(Extraction { max_chars: self.req.max_chars, bytes: b })
            },
        }
    }
}

impl PathCheck {
    pub closed spec fn request(&self) -> RequestView {
        self.req@
    }

    /// The local path to check.
    pub fn path(&self) -> (r: &str)
        ensures
            r@ == self.request().path,
    {
        self.req.path.as_str()
    }

    /// Goes on with whether the policy allows the path.
    pub fn resume(self, allowed: bool) -> (r: PdfReadStep)
        ensures
            !allowed ==> pdf_refusal(
                r,
                "Path not allowed by security policy: "@ + self.request().path,
            ),
            allowed ==> (r matches PdfReadStep::ResolvePath(p) && p.request() == self.request()),
    {
        if !allowed {
            PdfReadStep::Finished(
                refusal(with_detail("Path not allowed by security policy: ", self.req.path.as_str())),
            )
        } else {
            PdfReadStep::ResolvePath(PathResolve { req: self.req })
        }
    }
}

impl PathResolve {
    pub closed spec fn request(&self) -> RequestView {
        self.req@
    }

    /// The local path to resolve.
    pub fn path(&self) -> (r: &str)
        ensures
            r@ == self.request().path,
    {
        self.req.path.as_str()
    }

    /// Goes on with the canonical path, or the error that resolving gave.
    pub fn resume(self, resolved: Result<PathBuf, String>) -> (r: PdfReadStep)
        ensures
            match resolved {
                Err(e) => pdf_refusal(r, "Failed to resolve file path: "@ + e@),
                Ok(p) => r matches PdfReadStep::CheckResolved(c) && c.request() == self.request()
                    && c.resolved_view() == p,
            },
    {
        match resolved {
            Err(e) => PdfReadStep::Finished(
                refusal(with_detail("Failed to resolve file path: ", e.as_str())),
            ),
            Ok(p) => PdfReadStep::CheckResolved(ResolvedCheck { req: self.req, resolved: p }),
        }
    }
}

impl ResolvedCheck {
    pub closed spec fn request(&self) -> RequestView {
        self.req@
    }

    pub closed spec fn resolved_view(&self) -> PathBuf {
        self.resolved
    }

    /// The canonical path to check.
    pub fn resolved(&self) -> (r: &PathBuf)
        ensures
            *r == self.resolved_view(),
    {
        &self.resolved
    }

    /// Goes on with the policy's answer: nothing, or the message that
    /// explains why the resolved path is refused.
    pub fn resume(self, verdict: Result<(), String>) -> (r: PdfReadStep)
        ensures
            verdict matches Err(m) ==> pdf_refusal(r, m@),
            verdict is Ok ==> (r matches PdfReadStep::ReadMetadata(m) && m.request()
                == self.request() && m.resolved_view() == self.resolved_view()),
    {
        match verdict {
            Err(m) => PdfReadStep::Finished(refusal(m)),
            Ok(()) => PdfReadStep::ReadMetadata(
                MetadataRead { req: self.req, resolved: self.resolved },
            ),
        }
    }
}

impl MetadataRead {
    pub closed spec fn request(&self) -> RequestView {
        self.req@
    }

    pub closed spec fn resolved_view(&self) -> PathBuf {
        self.resolved
    }

    /// The file whose size is needed.
    pub fn resolved(&self) -> (r: &PathBuf)
        ensures
            *r == self.resolved_view(),
    {
        &self.resolved
    }

    /// Goes on with the file's size; a file over the limit is refused.
    pub fn resume(self, len: Result<u64, String>) -> (r: PdfReadStep)
        ensures
            match len {
                Err(e) => pdf_refusal(r, "Failed to read file metadata: "@ + e@),
                Ok(n) => if n > MAX_PDF_BYTES {
                    pdf_refusal(r, "PDF too large: "@ + decimal(n as nat) + limit_suffix())
                } else {
                    r matches PdfReadStep::ReadFile(f) && f.request() == self.request()
                        && f.resolved_view() == self.resolved_view()
                },
            },
    {
        match len {
            Err(e) => PdfReadStep::Finished(
                refusal(with_detail("Failed to read file metadata: ", e.as_str())),
            ),
            Ok(n) => if n > MAX_PDF_BYTES {
                PdfReadStep::Finished(refusal(too_large("PDF too large: ", n)))
            } else {
                PdfReadStep::ReadFile(FileRead { req: self.req, resolved: self.resolved })
            },
        }
    }
}

impl FileRead {
    pub closed spec fn request(&self) -> RequestView {
        self.req@
    }

    pub closed spec fn resolved_view(&self) -> PathBuf {
        self.resolved
    }

    /// The file to read.
    pub fn resolved(&self) -> (r: &PathBuf)
        ensures
            *r == self.resolved_view(),
    {
        &self.resolved
    }

    /// Goes on with the file's bytes.
    pub fn resume(self, read: Result<Vec<u8>, String>) -> (r: PdfReadStep)
        ensures
            match read {
                Err(e) => pdf_refusal(r, "Failed to read PDF file: "@ + e@),
                Ok(b) => r matches PdfReadStep::Extract(x) && x.bytes_view() == b@
                    && x.max_chars_view() == self.request().max_chars,
            },
    {
        match read {
            Err(e) => PdfReadStep::Finished(
                refusal(with_detail("Failed to read PDF file: ", e.as_str())),
            ),
            Ok(b) => {
                proof {
                    use_type_invariant(&self.req);
                }
                PdfReadStep::Extract(Extraction { max_chars: self.req.max_chars, bytes: b })
            },
        }
    }
}

impl Extraction {
    pub closed spec fn bytes_view(&self) -> Seq<u8> {
        self.bytes@
    }

    pub closed spec fn max_chars_view(&self) -> nat {
        self.max_chars as nat
    }

    /// The character limit of the answer, within the output cap.
    pub fn max_chars(&self) -> (r: usize)
        ensures
            r == self.max_chars_view(),
            r <= MAX_OUTPUT_CHARS,
    {
        proof {
            use_type_invariant(self);
        }
        self.max_chars
    }

    /// Hands out the PDF bytes for the extraction thread, leaving none.
    pub fn take_bytes(&mut self) -> (r: Vec<u8>)
        ensures
            r@ == old(self).bytes_view(),
            final(self).bytes_view() == Seq::<u8>::empty(),
            final(self).max_chars_view() == old(self).max_chars_view(),
    {
        proof {
            use_type_invariant(&*self);
        }
        let mut out: Vec<u8> = Vec::new();
        std::mem::swap(&mut out, &mut self.bytes);
        out
    }

    /// Ends the run with what the extraction gave: text that is all white
    /// space is reported as such, other text is handed back, cut at the
    /// character limit.
    pub fn resume(self, reply: ExtractionReply) -> (r: PdfReadStep)
        ensures
            match reply {
                ExtractionReply::Failed(e) => pdf_refusal(r, "PDF extraction failed: "@ + e@),
                ExtractionReply::Panicked(e) => pdf_refusal(
                    r,
                    "PDF extraction task panicked: "@ + e@,
                ),
                ExtractionReply::Text(t) => if all_ws(t@) {
                    pdf_success(r, no_text_message())
                } else {
                    pdf_success(r, shaped_text(t@, self.max_chars_view()))
                },
            },
    {
        match reply {
            ExtractionReply::Failed(e) => PdfReadStep::Finished(
                refusal(with_detail("PDF extraction failed: ", e.as_str())),
            ),
            ExtractionReply::Panicked(e) => PdfReadStep::Finished(
                refusal(with_detail("PDF extraction task panicked: ", e.as_str())),
            ),
            ExtractionReply::Text(t) => {
                if is_blank(t.as_str()) {
                    PdfReadStep::Finished(
                        success(
                            String::from_str(
                                "PDF contains no extractable text (may be image-only or encrypted)",
                            ),
                        ),
                    )
                } else {
                    PdfReadStep::Finished(success(shape_text(t, self.max_chars)))
                }
            },
        }
    }
}

/// The character limit is the one asked for, capped at 200000 characters;
/// only a request that names none gets the default of 50000.
pub proof fn lemma_max_chars_limit(m: Option<u64>)
    ensures
        m matches Some(n) ==> requested_max_chars(m) == (if n < 200_000 { n as nat } else {
            200_000nat
        }),
        m is None ==> requested_max_chars(m) == 50_000,
        m matches Some(n) ==> (50_000 < n <= 200_000 ==> requested_max_chars(m) == n),
{
}

/// A path is taken as a URL exactly when it begins with `http://` or
/// `https://`, whatever follows.
pub proof fn lemma_url_is_http_prefix(p: Seq<char>)
    ensures
        is_url_spec(p) == ((p.len() >= "http://"@.len() && p.take("http://"@.len() as int)
            == "http://"@) || (p.len() >= "https://"@.len() && p.take("https://"@.len() as int)
            == "https://"@)),
{
    assert(p.subrange(0, "http://"@.len() as int) == p.take("http://"@.len() as int));
    assert(p.subrange(0, "https://"@.len() as int) == p.take("https://"@.len() as int));
}

/// A downloaded body is taken as a PDF only when it is at most 50 MB and
/// begins with the bytes `%PDF`; a larger body is always refused as too
/// large, whatever the response head said.
pub proof fn lemma_body_limits(b: Seq<u8>)
    ensures
        b.len() > 52_428_800 ==> body_problem(b) == Some(
            "Downloaded PDF too large: "@ + decimal(b.len()) + limit_suffix(),
        ),
        body_problem(b) is None ==> b.len() <= 52_428_800 && b.len() >= 4 && b[0] == 0x25u8
            && b[1] == 0x50u8 && b[2] == 0x44u8 && b[3] == 0x46u8,
        b.len() <= 52_428_800 && b.len() >= 4 && b[0] == 0x25u8 && b[1] == 0x50u8 && b[2]
            == 0x44u8 && b[3] == 0x46u8 ==> body_problem(b) is None,
{
    if b.len() >= 4 {
        assert(b.take(4)[0] == b[0] && b.take(4)[1] == b[1] && b.take(4)[2] == b[2] && b.take(4)[3] == b[3]);
        if b[0] == 0x25u8 && b[1] == 0x50u8 && b[2] == 0x44u8 && b[3] == 0x46u8 {
            assert(b.take(4) =~= pdf_magic());
        }
    }
}

/// A download is stopped by an error status, by an announced length over
/// 50 MB, and by a content type that names neither `pdf` nor
/// `octet-stream`; it goes on when none of these holds.
pub proof fn lemma_head_checks(url: Seq<char>, head: ResponseHead)
    ensures
        !head.status_ok ==> head_problem(url, head) is Some,
        head.content_length matches Some(n) && n > 52_428_800 ==> head_problem(url, head) is Some,
        head.status_ok && (head.content_type matches Some(ct) ==> (ct@.len() == 0 || contains(
            ct@,
            "pdf"@,
        ) || contains(ct@, "octet-stream"@))) && (head.content_length matches Some(n) ==> n
            <= 52_428_800) ==> head_problem(url, head) is None,
{
}

/// Numerals of numbers below a million have at most six digits.
proof fn lemma_decimal_len(n: nat)
    ensures
        n < 10 ==> decimal(n).len() <= 1,
        n < 100 ==> decimal(n).len() <= 2,
        n < 1000 ==> decimal(n).len() <= 3,
        n < 10000 ==> decimal(n).len() <= 4,
        n < 100000 ==> decimal(n).len() <= 5,
        n < 1000000 ==> decimal(n).len() <= 6,
    decreases n,
{
    if n >= 10 {
        lemma_decimal_len(n / 10);
    }
}

/// The text handed back holds at most `max_chars` characters of the
/// extracted text: all of it when it fits, else exactly its first
/// `max_chars` characters followed by the truncation notice; within the
/// output cap the notice adds at most 33 characters.
pub proof fn lemma_output_respects_limit(text: Seq<char>, max_chars: nat)
    ensures
        text.len() <= max_chars ==> shaped_text(text, max_chars) == text,
        text.len() > max_chars ==> shaped_text(text, max_chars).take(max_chars as int) == text.take(
            max_chars as int,
        ),
        text.len() > max_chars ==> shaped_text(text, max_chars).len() == max_chars
            + truncation_notice(max_chars).len(),
        max_chars <= MAX_OUTPUT_CHARS ==> shaped_text(text, max_chars).len() <= max_chars + 33,
{
    reveal_strlit("\n\n... [truncated at ");
    reveal_strlit(" chars]");
    lemma_decimal_len(max_chars);
    if text.len() > max_chars {
        let out = shaped_text(text, max_chars);
        assert(out.take(max_chars as int) =~= text.take(max_chars as int));
    }
}

} // verus!
