//! Image generation: the decisions of a run, from the request arguments to
//! the saved file, as a sequence of stages. Each stage says which outside
//! work comes next (reading the API key, calling fal.ai or OpenRouter,
//! downloading the image, saving it); the caller does that work and hands
//! its result to the stage, which decides what follows.
use vstd::prelude::*;
use vstd::utf8::decode_utf8;
use vstd::utf8::encode_utf8;
use vstd::utf8::is_char_boundary;
use vstd::string::StringSliceAdditionalSpecFns;
use std::path::PathBuf;
use base64::Engine;
use crate::filename::default_image_name;
use crate::filename::is_plain_name;
use crate::filename::lemma_safe_name_is_plain;
use crate::filename::safe_name;
use crate::filename::sanitize_filename;
use crate::text::chars_of;
use crate::text::contains;
use crate::text::contains_char;
use crate::text::contains_exec;
use crate::text::decimal;
use crate::text::is_blank;
use crate::text::lemma_trim_idempotent;
use crate::text::push_decimal;
use crate::text::same;
use crate::text::starts_with;
use crate::text::starts_with_exec;
use crate::text::trim;
use crate::text::trim_str;
use crate::tool::error_from;
use crate::tool::error_plain;
use crate::tool::is_error;
use crate::tool::is_refusal;
use crate::tool::is_success;
use crate::tool::refusal;
use crate::tool::success;
use crate::tool::param;
use crate::tool::param_is;
use crate::tool::ParamType;
use crate::tool::ToolSchema;
use crate::tool::ParamSchema;
use crate::tool::Failure;
use crate::tool::ToolResult;

verus! {

/// Seconds that an HTTP request of the tool may take.
pub const HTTP_TIMEOUT_SECS: u64 = 120;

/// The arguments of a run, each as the agent gave it (absent when missing
/// or not a string).
pub struct ImageGenArgs {
    pub prompt: Option<String>,
    pub filename: Option<String>,
    pub size: Option<String>,
    pub model: Option<String>,
}

/// What the fal.ai reply holds at `/images/0/url`, if a string.
pub type FalImage = Option<String>;

/// The strings an OpenRouter reply holds at the three places where an
/// image can be: `/choices/0/message/images/0/image_url/url`,
/// `/choices/0/message/content/0/image_url/url` and
/// `/choices/0/message/content`.
pub struct OpenRouterImage {
    pub images_url: Option<String>,
    pub content_url: Option<String>,
    pub content: Option<String>,
}

/// How a call to an image API ended.
pub enum ApiReply<T> {
    /// The request could not be sent; the transport error.
    RequestFailed(String),
    /// The service answered with an error status; the status and the body.
    ErrorStatus(String, String),
    /// The body was not JSON; the parse error.
    BadJson(String),
    /// The reply, read as JSON.
    Json(T),
}

/// How the download of a generated image ended.
pub enum DownloadReply {
    RequestFailed(String),
    /// An error status, as the HTTP client displays it.
    ErrorStatus(String),
    BodyFailed(String),
    Body(Vec<u8>),
}

/// How saving the image ended.
pub enum SaveReply {
    DirFailed(String),
    WriteFailed(String),
    /// Saved; the path of the file as it is shown to the user.
    Saved(String),
}

/// A validated request.
pub struct JobView {
    pub prompt: Seq<char>,
    pub safe_name: Seq<char>,
    pub model: Seq<char>,
    pub size: Seq<char>,
}

/// `v`, when it is present and not blank.
pub open spec fn nonblank(v: Option<Seq<char>>) -> Option<Seq<char>> {
    match v {
        Some(s) => if trim(s).len() > 0 { Some(s) } else { None },
        None => None,
    }
}

/// The prompt of a request: the trimmed `prompt` argument, if not blank.
pub open spec fn requested_prompt(args: ImageGenArgs) -> Option<Seq<char>> {
    match nonblank(args.prompt.deep_view()) {
        Some(p) => Some(trim(p)),
        None => None,
    }
}

/// The requested file name, or `generated_image` when it is blank.
pub open spec fn requested_filename(args: ImageGenArgs) -> Seq<char> {
    match nonblank(args.filename.deep_view()) {
        Some(f) => f,
        None => default_image_name(),
    }
}

/// The requested model, or the tool's default when it is blank.
pub open spec fn requested_model(args: ImageGenArgs, default_model: Seq<char>) -> Seq<char> {
    match nonblank(args.model.deep_view()) {
        Some(m) => m,
        None => default_model,
    }
}

/// The requested size preset, `square_hd` when absent.
pub open spec fn requested_size(args: ImageGenArgs) -> Seq<char> {
    match args.size.deep_view() {
        Some(s) => s,
        None => "square_hd"@,
    }
}

/// A model identifier that cannot redirect the request: no `..`, `?`, `#`
/// or `\`.
pub open spec fn model_is_valid(m: Seq<char>) -> bool {
    !contains(m, ".."@) && !m.contains('?') && !m.contains('#') && !m.contains('\\')
}

/// One of the size presets that fal.ai accepts.
pub open spec fn size_is_valid(s: Seq<char>) -> bool {
    ||| s == "square_hd"@
    ||| s == "landscape_4_3"@
    ||| s == "portrait_4_3"@
    ||| s == "landscape_16_9"@
    ||| s == "portrait_16_9"@
}

/// The size presets, in the order the agent is told them.
pub open spec fn size_presets() -> Seq<Seq<char>> {
    seq!["square_hd"@, "landscape_4_3"@, "portrait_4_3"@, "landscape_16_9"@, "portrait_16_9"@]
}

/// The presets the agent is told of are exactly the sizes that are
/// accepted.
pub proof fn lemma_size_presets(s: Seq<char>)
    ensures
        size_is_valid(s) <==> size_presets().contains(s),
{
    let p = size_presets();
    if size_is_valid(s) {
        if s == "square_hd"@ {
            assert(p[0] == s);
        } else if s == "landscape_4_3"@ {
            assert(p[1] == s);
        } else if s == "portrait_4_3"@ {
            assert(p[2] == s);
        } else if s == "landscape_16_9"@ {
            assert(p[3] == s);
        } else {
            assert(p[4] == s);
        }
    }
    if p.contains(s) {
        let i = choose|i: int| 0 <= i < p.len() && p[i] == s;
        assert(0 <= i < 5);
    }
}

/// Models outside the `fal-ai/` namespace are served by OpenRouter.
pub open spec fn targets_openrouter(m: Seq<char>) -> bool {
    !starts_with(m, "fal-ai/"@)
}

pub open spec fn missing_prompt_message() -> Seq<char> {
    "Missing required parameter: 'prompt'"@
}

pub open spec fn invalid_model_message(m: Seq<char>) -> Seq<char> {
    "Invalid model identifier '"@ + m + "'."@
}

pub open spec fn missing_key_message(env_var: Seq<char>) -> Seq<char> {
    "Missing API key: set the "@ + env_var + " environment variable"@
}

pub open spec fn invalid_size_message(s: Seq<char>) -> Seq<char> {
    "Invalid size '"@ + s
        + "'. Valid: square_hd, landscape_4_3, portrait_4_3, landscape_16_9, portrait_16_9"@
}

/// The request that the arguments make, or the message that refuses them.
pub open spec fn planned_job(args: ImageGenArgs, default_model: Seq<char>) -> Result<
    JobView,
    Seq<char>,
> {
    match requested_prompt(args) {
        None => Err(missing_prompt_message()),
        Some(p) => {
            let m = requested_model(args, default_model);
            if !model_is_valid(m) {
                Err(invalid_model_message(m))
            } else {
                Ok(
                    JobView {
                        prompt: p,
                        safe_name: safe_name(requested_filename(args)),
                        model: m,
                        size: requested_size(args),
                    },
                )
            }
        },
    }
}

/// The API key that an environment value gives: the trimmed value, when
/// it is set and not blank.
pub open spec fn api_key_from(value: Option<Seq<char>>) -> Option<Seq<char>> {
    match nonblank(value) {
        Some(v) => Some(trim(v)),
        None => None,
    }
}

/// What `s` holds after its first occurrence of `c`, if any.
pub open spec fn split_after(s: Seq<char>, c: char) -> Option<Seq<char>>
    decreases s.len(),
{
    if s.len() == 0 {
        None
    } else if s[0] == c {
        Some(s.drop_first())
    } else {
        split_after(s.drop_first(), c)
    }
}

/// The base64 text of a data URI: what follows its first comma, or all of
/// it when it has none.
pub open spec fn data_payload(url: Seq<char>) -> Seq<char> {
    match split_after(url, ',') {
        Some(d) => d,
        None => url,
    }
}

/// The image URL of an OpenRouter reply: the first image entry, else the
/// first image part of the content, else the content itself when it is an
/// `http` or `data:image` URL.
pub open spec fn openrouter_image_url(img: OpenRouterImage) -> Option<Seq<char>> {
    match img.images_url {
        Some(u) => Some(u@),
        None => match img.content_url {
            Some(u) => Some(u@),
            None => match img.content {
                Some(c) => if starts_with(c@, "http"@) || starts_with(c@, "data:image"@) {
                    Some(c@)
                } else {
                    None
                },
                None => None,
            },
        },
    }
}

/// How many bytes of an image URL an error message shows.
pub open spec fn shown_url_len(url: Seq<char>) -> int {
    if encode_utf8(url).len() < 100 {
        encode_utf8(url).len() as int
    } else {
        100
    }
}

/// The start of an image URL that an error message shows.
pub open spec fn shown_url(url: Seq<char>) -> Seq<char> {
    decode_utf8(encode_utf8(url).take(shown_url_len(url)))
}

/// The output of a successful run.
pub open spec fn saved_message(path: Seq<char>, nbytes: nat, job: JobView) -> Seq<char> {
    "Image generated successfully.\nFile: "@ + path + "\nSize: "@ + decimal(nbytes / 1024)
        + " KB\nModel: "@ + job.model + "\nPrompt: "@ + job.prompt
}

/// What base64 (standard alphabet, canonical padding) decoding of `data`
/// gives: the bytes, or the decoder's error message.
pub uninterp spec fn base64_standard_decoded(data: Seq<char>) -> Result<Seq<u8>, Seq<char>>;

/// Decodes `data` with `base64::engine::general_purpose::STANDARD`; the
/// result is the one that `base64_standard_decoded` names. The decoder does
/// not panic.
#[verifier::external_body]
fn decode_base64_standard(data: &str) -> (r: Result<Vec<u8>, String>)
    ensures
        match r {
            Ok(b) => base64_standard_decoded(data@) == Ok::<Seq<u8>, Seq<char>>(b@),
            Err(e) => base64_standard_decoded(data@) == Err::<Seq<u8>, Seq<char>>(e@),
        },
{
    match base64::engine::general_purpose::STANDARD.decode(data) {
        Ok(bytes) => Ok(bytes),
        Err(e) => Err(e.to_string()),
    }
}

/// A request that passed validation.
pub struct ImageJob {
    prompt: String,
    safe_name: String,
    model: String,
    size: String,
}

impl ImageJob {
    /// A job always has a usable model, a trimmed prompt that is not empty,
    /// and an output name that stays in its directory.
    #[verifier::type_invariant]
    spec fn is_safe(self) -> bool {
        &&& model_is_valid(self.model@)
        &&& self.prompt@.len() > 0
        &&& trim(self.prompt@) == self.prompt@
        &&& is_plain_name(self.safe_name@)
    }
}

impl View for ImageJob {
    type V = JobView;

    closed spec fn view(&self) -> JobView {
        JobView {
            prompt: self.prompt@,
            safe_name: self.safe_name@,
            model: self.model@,
            size: self.size@,
        }
    }
}

/// The next thing a run needs: its end, or a piece of outside work.
pub enum ImageGenStep {
    /// The run is over.
    Finished(Result<ToolResult, Failure>),
    /// Read the environment variable that holds the API key.
    ReadApiKey(KeyLookup),
    /// Ask fal.ai for an image.
    CallFal(FalCall),
    /// Ask OpenRouter for an image.
    CallOpenRouter(OpenRouterCall),
    /// Download the generated image.
    Download(ImageDownload),
    /// Save the image bytes.
    Save(ImageSave),
}

/// The run is over with a refusal that carries `msg`.
pub open spec fn finished_refusal(r: ImageGenStep, msg: Seq<char>) -> bool {
    r matches ImageGenStep::Finished(o) && is_refusal(o, msg)
}

/// The run is over with an error.
pub open spec fn finished_error(r: ImageGenStep, msg: Seq<char>, cause: Option<Seq<char>>) -> bool {
    r matches ImageGenStep::Finished(o) && is_error(o, msg, cause)
}

/// What follows once the image URL of `job` is known: a data URI is
/// decoded and saved, any other URL is downloaded.
pub open spec fn continues_with_image(job: JobView, url: Seq<char>, r: ImageGenStep) -> bool {
    if starts_with(url, "data:image"@) {
        match base64_standard_decoded(data_payload(url)) {
            Ok(bytes) => r matches ImageGenStep::Save(s) && s.job() == job && s.bytes_view()
                == bytes,
            Err(e) => finished_error(r, "Failed to decode base64 image data"@, Some(e)),
        }
    } else {
        r matches ImageGenStep::Download(d) && d.job() == job && d.url_view() == url
    }
}

/// The API key has to be read from the environment.
pub struct KeyLookup {
    job: ImageJob,
    env_var: String,
}

/// fal.ai has to be asked for the image.
pub struct FalCall {
    job: ImageJob,
    api_key: String,
}

/// OpenRouter has to be asked for the image.
pub struct OpenRouterCall {
    job: ImageJob,
    api_key: String,
}

/// The generated image has to be downloaded.
pub struct ImageDownload {
    job: ImageJob,
    url: String,
}

/// The image bytes have to be saved.
pub struct ImageSave {
    job: ImageJob,
    bytes: Vec<u8>,
}

/// The image generation tool: the host's security policy, the workspace,
/// the default model and the environment variable that holds the API key.
pub struct ImageGenTool<S> {
    security: S,
    workspace_dir: PathBuf,
    default_model: String,
    api_key_env: String,
}

impl<S> ImageGenTool<S> {
    pub closed spec fn security_view(&self) -> S {
        self.security
    }

    pub closed spec fn workspace_view(&self) -> PathBuf {
        self.workspace_dir
    }

    pub closed spec fn default_model_view(&self) -> Seq<char> {
        self.default_model@
    }

    pub closed spec fn api_key_env_view(&self) -> Seq<char> {
        self.api_key_env@
    }

    pub fn new(security: S, workspace_dir: PathBuf, default_model: String, api_key_env: String) -> (r: Self)
        ensures
            r.security_view() == security,
            r.workspace_view() == workspace_dir,
            r.default_model_view() == default_model@,
            r.api_key_env_view() == api_key_env@,
    {
        ImageGenTool { security, workspace_dir, default_model, api_key_env }
    }

    pub fn security(&self) -> (r: &S)
        ensures
            *r == self.security_view(),
    {
        &self.security
    }

    pub fn workspace_dir(&self) -> (r: &PathBuf)
        ensures
            *r == self.workspace_view(),
    {
        &self.workspace_dir
    }

    pub fn default_model(&self) -> (r: &str)
        ensures
            r@ == self.default_model_view(),
    {
        self.default_model.as_str()
    }

    pub fn api_key_env(&self) -> (r: &str)
        ensures
            r@ == self.api_key_env_view(),
    {
        self.api_key_env.as_str()
    }

    /// The name under which the agent calls the tool.
    pub fn name(&self) -> (r: &'static str)
        ensures
            r@ == "image_gen"@,
    {
        "image_gen"
    }

    /// What the agent is told about the tool.
    pub fn description(&self) -> (r: &'static str)
        ensures
            r@ == "Generate an image from a text prompt. Supports OpenRouter models (e.g. bytedance/seedream-4.5) and fal.ai (e.g. fal-ai/flux/schnell). Saves the result to the workspace images directory and returns the file path."@,
    {
        "Generate an image from a text prompt. Supports OpenRouter models (e.g. bytedance/seedream-4.5) and fal.ai (e.g. fal-ai/flux/schnell). Saves the result to the workspace images directory and returns the file path."
    }

    /// The parameters the agent may give: a required `prompt`, and
    /// `filename`, `size` (one of the presets) and `model`.
    pub fn parameters_schema(&self) -> (r: ToolSchema)
        ensures
            r.required.deep_view() == seq!["prompt"@],
            r.params@.len() == 4,
            param_is(
                r.params@[0],
                "prompt"@,
                ParamType::Str,
                "Text prompt describing the image to generate."@,
                Seq::empty(),
                None,
                None,
            ),
            param_is(
                r.params@[1],
                "filename"@,
                ParamType::Str,
                "Output filename without extension (default: 'generated_image'). Saved as PNG in workspace/images/."@,
                Seq::empty(),
                None,
                None,
            ),
            param_is(
                r.params@[2],
                "size"@,
                ParamType::Str,
                "Image aspect ratio / size preset (default: 'square_hd')."@,
                size_presets(),
                None,
                None,
            ),
            param_is(
                r.params@[3],
                "model"@,
                ParamType::Str,
                "fal.ai model identifier (default: 'fal-ai/flux/schnell')."@,
                Seq::empty(),
                None,
                None,
            ),
    {
        let mut sizes: Vec<String> = Vec::new();
        sizes.push(String::from_str("square_hd"));
        sizes.push(String::from_str("landscape_4_3"));
        sizes.push(String::from_str("portrait_4_3"));
        sizes.push(String::from_str("landscape_16_9"));
        sizes.push(String::from_str("portrait_16_9"));
        assert(sizes.deep_view() =~= size_presets());
        let mut params: Vec<ParamSchema> = Vec::new();
        let ghost empty: Seq<Seq<char>> = Seq::empty();
        let no_choices: Vec<String> = Vec::new();
        assert(no_choices.deep_view() =~= empty);
        params.push(
            param(
                "prompt",
                ParamType::Str,
                "Text prompt describing the image to generate.",
                no_choices,
                None,
                None,
            ),
        );
        let no_choices: Vec<String> = Vec::new();
        assert(no_choices.deep_view() =~= empty);
        params.push(
            param(
                "filename",
                ParamType::Str,
                "Output filename without extension (default: 'generated_image'). Saved as PNG in workspace/images/.",
                no_choices,
                None,
                None,
            ),
        );
        params.push(
            param(
                "size",
                ParamType::Str,
                "Image aspect ratio / size preset (default: 'square_hd').",
                sizes,
                None,
                None,
            ),
        );
        let no_choices: Vec<String> = Vec::new();
        assert(no_choices.deep_view() =~= empty);
        params.push(
            param(
                "model",
                ParamType::Str,
                "fal.ai model identifier (default: 'fal-ai/flux/schnell').",
                no_choices,
                None,
                None,
            ),
        );
        let mut required: Vec<String> = Vec::new();
        required.push(String::from_str("prompt"));
        assert(required.deep_view() =~= seq!["prompt"@]);
        ToolSchema { params, required }
    }

    /// Whether `model` is served by OpenRouter (`provider/model`) rather
    /// than by fal.ai (`fal-ai/model/variant`).
    pub fn is_openrouter_model(model: &str) -> (b: bool)
        ensures
            b == targets_openrouter(model@),
    {
        let m = chars_of(model);
        let p = chars_of("fal-ai/");
        !starts_with_exec(m.as_slice(), p.as_slice())
    }

    /// The API key that the environment value `value` of `env_var` gives,
    /// or the message that asks for it to be set.
    pub fn read_api_key(env_var: &str, value: Option<String>) -> (r: Result<String, String>)
        ensures
            match api_key_from(value.deep_view()) {
                Some(k) => r matches Ok(key) && key@ == k,
                None => r matches Err(msg) && msg@ == missing_key_message(env_var@),
            },
    {
        match value {
            Some(v) => {
                if !is_blank(v.as_str()) {
                    return Ok(trim_str(v.as_str()));
                }
            },
            None => {},
        }
        let mut msg = String::from_str("Missing API key: set the ");
        msg.append(env_var);
        msg.append(" environment variable");
        Err(msg)
    }

    /// Starts a run: `verdict` is what the security policy answered to the
    /// side-effecting action of this tool; `args` are the run's arguments.
    pub fn start(&self, verdict: Result<(), String>, args: &ImageGenArgs) -> (r: ImageGenStep)
        ensures
            verdict matches Err(e) ==> finished_refusal(r, e@),
            verdict is Ok ==> match planned_job(*args, self.default_model_view()) {
                Err(msg) => finished_refusal(r, msg),
                Ok(job) => r matches ImageGenStep::ReadApiKey(k) && k.job() == job
                    && k.env_var_view() == self.api_key_env_view(),
            },
    {
        if let Err(e) = verdict {
            return ImageGenStep::Finished(refusal(e));
        }
        match plan_job(args, &self.default_model) {
            Err(msg) => ImageGenStep::Finished(refusal(msg)),
            Ok(job) => ImageGenStep::ReadApiKey(KeyLookup { job, env_var: self.api_key_env.clone() }),
        }
    }
}

/// `v`, when it is present and not blank.
fn nonblank_exec(v: &Option<String>) -> (r: Option<&str>)
    ensures
        match nonblank(v.deep_view()) {
            Some(s) => r matches Some(x) && x@ == s,
            None => r is None,
        },
{
    match v {
        Some(s) => if is_blank(s.as_str()) { None } else { Some(s.as_str()) },
        None => None,
    }
}

/// Whether `m` is a model identifier that cannot redirect the request.
pub fn is_valid_model(m: &str) -> (b: bool)
    ensures
        b == model_is_valid(m@),
{
    let cs = chars_of(m);
    let dots = chars_of("..");
    !contains_exec(cs.as_slice(), dots.as_slice()) && !contains_char(cs.as_slice(), '?')
        && !contains_char(cs.as_slice(), '#') && !contains_char(cs.as_slice(), '\\')
}

/// Whether `s` is one of the fal.ai size presets.
pub fn is_valid_size(s: &str) -> (b: bool)
    ensures
        b == size_is_valid(s@),
{
    same(s, "square_hd") || same(s, "landscape_4_3") || same(s, "portrait_4_3") || same(
        s,
        "landscape_16_9",
    ) || same(s, "portrait_16_9")
}

/// The validated request of `args`, or the message that refuses them.
fn plan_job(args: &ImageGenArgs, default_model: &String) -> (r: Result<ImageJob, String>)
    ensures
        match planned_job(*args, default_model@) {
            Ok(job) => r matches Ok(j) && j@ == job,
            Err(msg) => r matches Err(m) && m@ == msg,
        },
{
    let prompt = match nonblank_exec(&args.prompt) {
        Some(p) => trim_str(p),
        None => return Err(String::from_str("Missing required parameter: 'prompt'")),
    };
    let filename = match nonblank_exec(&args.filename) {
        Some(f) => String::from_str(f),
        None => {
            let d = String::from_str("generated_image");
            proof {
                reveal_strlit("generated_image");
            }
            assert(d@ == default_image_name());
            d
        },
    };
    let safe = sanitize_filename(filename.as_str());
    let model = match nonblank_exec(&args.model) {
        Some(m) => String::from_str(m),
        None => default_model.clone(),
    };
    if !is_valid_model(model.as_str()) {
        let mut msg = String::from_str("Invalid model identifier '");
        msg.append(model.as_str());
        msg.append("'.");
        return Err(msg);
    }
    let size = match &args.size {
        Some(s) => s.clone(),
        None => String::from_str("square_hd"),
    };
    proof {
        lemma_planned_job_is_safe(*args, default_model@);
    }
    Ok(ImageJob { prompt, safe_name: safe, model, size })
}

/// The image URL of an OpenRouter reply, if it holds one.
pub fn pick_openrouter_image(img: OpenRouterImage) -> (r: Option<String>)
    ensures
        r.deep_view() == openrouter_image_url(img),
        img.images_url matches Some(u) ==> r == Some(u),
        img.images_url is None ==> (img.content_url matches Some(u) ==> r == Some(u)),
        img.images_url is None && img.content_url is None ==> (img.content matches Some(c) ==> (
        r is Some <==> (c@.len() >= 4 && c@.take(4) == "http"@) || (c@.len() >= 10 && c@.take(10)
            == "data:image"@))),
        r matches Some(x) ==> img.images_url == Some(x) || img.content_url == Some(x)
            || img.content == Some(x),
        img.images_url is None && img.content_url is None && img.content is None ==> r is None,
{
    proof {
        lemma_openrouter_image_url(img);
    }
    match img.images_url {
        Some(u) => Some(u),
        None => match img.content_url {
            Some(u) => Some(u),
            None => match img.content {
                Some(c) => {
                    let cs = chars_of(c.as_str());
                    let http = chars_of("http");
                    let data = chars_of("data:image");
                    if starts_with_exec(cs.as_slice(), http.as_slice()) || starts_with_exec(
                        cs.as_slice(),
                        data.as_slice(),
                    ) {
                        Some(c)
                    } else {
                        None
                    }
                },
                None => None,
            },
        },
    }
}

proof fn lemma_split_after_at(s: Seq<char>, c: char, i: int)
    requires
        0 <= i < s.len(),
        s[i] == c,
        forall|k: int| 0 <= k < i ==> s[k] != c,
    ensures
        split_after(s, c) == Some(s.subrange(i + 1, s.len() as int)),
    decreases i,
{
    if i > 0 {
        lemma_split_after_at(s.drop_first(), c, i - 1);
        assert(s.drop_first().subrange(i, s.len() - 1) == s.subrange(i + 1, s.len() as int));
    }
}

proof fn lemma_split_after_none(s: Seq<char>, c: char)
    requires
        !s.contains(c),
    ensures
        split_after(s, c) is None,
    decreases s.len(),
{
    if s.len() > 0 {
        assert(s[0] != c);
        assert forall|k: int| 0 <= k < s.drop_first().len() implies s.drop_first()[k] != c by {
            assert(s.drop_first()[k] == s[k + 1]);
        }
        lemma_split_after_none(s.drop_first(), c);
    }
}

/// The base64 text of the data URI `url`.
pub fn data_uri_payload(url: &str) -> (r: &str)
    ensures
        r@ == data_payload(url@),
{
    let cs = chars_of(url);
    let mut i: usize = 0;
    while i < cs.len()
        invariant
            i <= cs.len(),
            cs@ == url@,
            forall|k: int| 0 <= k < i ==> cs@[k] != ',',
        decreases cs.len() - i,
    {
        if cs[i] == ',' {
            proof {
                lemma_split_after_at(url@, ',', i as int);
            }
            return url.substring_char(i + 1, cs.len());
        }
        i = i + 1;
    }
    proof {
        lemma_split_after_none(url@, ',');
    }
    url
}

/// What follows once the image URL of `job` is known.
fn continue_with_image(job: ImageJob, url: String) -> (r: ImageGenStep)
    ensures
        continues_with_image(job@, url@, r),
{
    let cs = chars_of(url.as_str());
    let prefix = chars_of("data:image");
    if starts_with_exec(cs.as_slice(), prefix.as_slice()) {
        let payload = data_uri_payload(url.as_str());
        match decode_base64_standard(payload) {
            Ok(bytes) => ImageGenStep::Save(ImageSave { job, bytes }),
            Err(e) => ImageGenStep::Finished(
                error_from("Failed to decode base64 image data", e),
            ),
        }
    } else {
        ImageGenStep::Download(ImageDownload { job, url })
    }
}

/// The message of an API that answered with an error status.
fn api_status_message(lead: &str, status: &str, body: &str) -> (r: String)
    ensures
        r@ == lead@ + status@ + "): "@ + body@,
{
    let mut m = String::from_str(lead);
    m.append(status);
    m.append("): ");
    m.append(body);
    m
}

impl KeyLookup {
    pub closed spec fn job(&self) -> JobView {
        self.job@
    }

    pub closed spec fn env_var_view(&self) -> Seq<char> {
        self.env_var@
    }

    /// The environment variable to read.
    pub fn env_var(&self) -> (r: &str)
        ensures
            r@ == self.env_var_view(),
    {
        self.env_var.as_str()
    }

    /// Goes on with `value`, the variable's value (`None` when it is not
    /// set or not Unicode). Without a key the run is refused; OpenRouter
    /// models are called at once; fal.ai models need a valid size first.
    pub fn resume(self, value: Option<String>) -> (r: ImageGenStep)
        ensures
            match api_key_from(value.deep_view()) {
                None => finished_refusal(r, missing_key_message(self.env_var_view())),
                Some(key) => if targets_openrouter(self.job().model) {
                    r matches ImageGenStep::CallOpenRouter(c) && c.job() == self.job()
                        && c.api_key_view() == key
                } else if !size_is_valid(self.job().size) {
                    finished_refusal(r, invalid_size_message(self.job().size))
                } else {
                    r matches ImageGenStep::CallFal(c) && c.job() == self.job() && c.api_key_view()
                        == key
                },
            },
    {
        let api_key = match ImageGenTool::<()>::read_api_key(self.env_var.as_str(), value) {
            Ok(k) => k,
            Err(msg) => return ImageGenStep::Finished(refusal(msg)),
        };
        if ImageGenTool::<()>::is_openrouter_model(self.job.model.as_str()) {
            return ImageGenStep::CallOpenRouter(OpenRouterCall { job: self.job, api_key });
        }
        if !is_valid_size(self.job.size.as_str()) {
            let mut msg = String::from_str("Invalid size '");
            msg.append(self.job.size.as_str());
            msg.append(
                "'. Valid: square_hd, landscape_4_3, portrait_4_3, landscape_16_9, portrait_16_9",
            );
            return ImageGenStep::Finished(refusal(msg));
        }
        ImageGenStep::CallFal(FalCall { job: self.job, api_key })
    }
}

impl FalCall {
    pub closed spec fn job(&self) -> JobView {
        self.job@
    }

    pub closed spec fn api_key_view(&self) -> Seq<char> {
        self.api_key@
    }

    /// The endpoint: `https://fal.run/` followed by the model, which holds
    /// no `..`, `?`, `#` or `\`.
    pub fn url(&self) -> (r: String)
        ensures
            r@ == "https://fal.run/"@ + self.job().model,
            model_is_valid(self.job().model),
    {
        proof {
            use_type_invariant(&self.job);
        }
        let mut u = String::from_str("https://fal.run/");
        u.append(self.job.model.as_str());
        u
    }

    /// The `Authorization` header: `Key ` and the API key.
    pub fn authorization(&self) -> (r: String)
        ensures
            r@ == "Key "@ + self.api_key_view(),
    {
        let mut a = String::from_str("Key ");
        a.append(self.api_key.as_str());
        a
    }

    /// The `prompt` field of the request body: trimmed, not empty.
    pub fn prompt(&self) -> (r: &str)
        ensures
            r@ == self.job().prompt,
            r@.len() > 0 && trim(r@) == r@,
    {
        proof {
            use_type_invariant(&self.job);
        }
        self.job.prompt.as_str()
    }

    /// The `image_size` field of the request body.
    pub fn image_size(&self) -> (r: &str)
        ensures
            r@ == self.job().size,
    {
        self.job.size.as_str()
    }

    /// The `num_images` field of the request body.
    pub fn num_images(&self) -> (r: u64)
        ensures
            r == 1,
    {
        1
    }

    /// Goes on with fal.ai's reply.
    pub fn resume(self, reply: ApiReply<FalImage>) -> (r: ImageGenStep)
        ensures
            match reply {
                ApiReply::RequestFailed(c) => finished_error(r, "fal.ai request failed"@, Some(c@)),
                ApiReply::ErrorStatus(st, body) => finished_error(
                    r,
                    "fal.ai API error ("@ + st@ + "): "@ + body@,
                    None,
                ),
                ApiReply::BadJson(c) => finished_error(
                    r,
                    "Failed to parse fal.ai response"@,
                    Some(c@),
                ),
                ApiReply::Json(None) => finished_error(r, "No image URL in fal.ai response"@, None),
                ApiReply::Json(Some(u)) => continues_with_image(self.job(), u@, r),
            },
    {
        match reply {
            ApiReply::RequestFailed(c) => ImageGenStep::Finished(
                error_from("fal.ai request failed", c),
            ),
            ApiReply::ErrorStatus(st, body) => ImageGenStep::Finished(
                error_plain(api_status_message("fal.ai API error (", st.as_str(), body.as_str())),
            ),
            ApiReply::BadJson(c) => ImageGenStep::Finished(
                error_from("Failed to parse fal.ai response", c),
            ),
            ApiReply::Json(None) => ImageGenStep::Finished(
                error_plain(String::from_str("No image URL in fal.ai response")),
            ),
            ApiReply::Json(Some(u)) => continue_with_image(self.job, u),
        }
    }
}

impl OpenRouterCall {
    pub closed spec fn job(&self) -> JobView {
        self.job@
    }

    pub closed spec fn api_key_view(&self) -> Seq<char> {
        self.api_key@
    }

    /// The chat completions endpoint.
    pub fn url(&self) -> (r: &'static str)
        ensures
            r@ == "https://openrouter.ai/api/v1/chat/completions"@,
    {
        "https://openrouter.ai/api/v1/chat/completions"
    }

    /// The `Authorization` header: `Bearer ` and the API key.
    pub fn authorization(&self) -> (r: String)
        ensures
            r@ == "Bearer "@ + self.api_key_view(),
    {
        let mut a = String::from_str("Bearer ");
        a.append(self.api_key.as_str());
        a
    }

    /// The `HTTP-Referer` header.
    pub fn referer(&self) -> (r: &'static str)
        ensures
            r@ == "https://zeroclaw.dev"@,
    {
        "https://zeroclaw.dev"
    }

    /// The `model` field of the request body, which holds no `..`, `?`,
    /// `#` or `\`.
    pub fn model(&self) -> (r: &str)
        ensures
            r@ == self.job().model,
            model_is_valid(r@),
    {
        proof {
            use_type_invariant(&self.job);
        }
        self.job.model.as_str()
    }

    /// The content of the single user message of the request.
    pub fn message(&self) -> (r: String)
        ensures
            r@ == "Generate an image: "@ + self.job().prompt
                + ". Only output the image, no text."@,
    {
        let mut m = String::from_str("Generate an image: ");
        m.append(self.job.prompt.as_str());
        m.append(". Only output the image, no text.");
        m
    }

    /// Goes on with OpenRouter's reply.
    pub fn resume(self, reply: ApiReply<OpenRouterImage>) -> (r: ImageGenStep)
        ensures
            match reply {
                ApiReply::RequestFailed(c) => finished_error(
                    r,
                    "OpenRouter image gen request failed"@,
                    Some(c@),
                ),
                ApiReply::ErrorStatus(st, body) => finished_error(
                    r,
                    "OpenRouter API error ("@ + st@ + "): "@ + body@,
                    None,
                ),
                ApiReply::BadJson(c) => finished_error(
                    r,
                    "Failed to parse OpenRouter response"@,
                    Some(c@),
                ),
                ApiReply::Json(img) => match openrouter_image_url(img) {
                    None => finished_error(
                        r,
                        "No image found in OpenRouter response. Check model supports image output."@,
                        None,
                    ),
                    Some(u) => continues_with_image(self.job(), u, r),
                },
            },
    {
        match reply {
            ApiReply::RequestFailed(c) => ImageGenStep::Finished(
                error_from("OpenRouter image gen request failed", c),
            ),
            ApiReply::ErrorStatus(st, body) => ImageGenStep::Finished(
                error_plain(api_status_message("OpenRouter API error (", st.as_str(), body.as_str())),
            ),
            ApiReply::BadJson(c) => ImageGenStep::Finished(
                error_from("Failed to parse OpenRouter response", c),
            ),
            ApiReply::Json(img) => match pick_openrouter_image(img) {
                Some(u) => continue_with_image(self.job, u),
                None => ImageGenStep::Finished(
                    error_plain(String::from_str("No image found in OpenRouter response. Check model supports image output.")),
                ),
            },
        }
    }
}

impl ImageDownload {
    pub closed spec fn job(&self) -> JobView {
        self.job@
    }

    pub closed spec fn url_view(&self) -> Seq<char> {
        self.url@
    }

    /// The URL of the image.
    pub fn url(&self) -> (r: &str)
        ensures
            r@ == self.url_view(),
    {
        self.url.as_str()
    }

    /// Goes on with how the download ended. An error status is reported
    /// with the first 100 bytes of the URL, which must end on a character
    /// boundary.
    pub fn resume(self, reply: DownloadReply) -> (r: ImageGenStep)
        requires
            reply is ErrorStatus ==> is_char_boundary(
                encode_utf8(self.url_view()),
                shown_url_len(self.url_view()),
            ),
        ensures
            match reply {
                DownloadReply::RequestFailed(c) => finished_error(
                    r,
                    "Failed to download generated image"@,
                    Some(c@),
                ),
                DownloadReply::ErrorStatus(st) => finished_refusal(
                    r,
                    "Failed to download image from "@ + shown_url(self.url_view()) + " ("@ + st@
                        + ")"@,
                ),
                DownloadReply::BodyFailed(c) => finished_error(
                    r,
                    "Failed to read image bytes"@,
                    Some(c@),
                ),
                DownloadReply::Body(b) => r matches ImageGenStep::Save(s) && s.job() == self.job()
                    && s.bytes_view() == b@,
            },
    {
        match reply {
            DownloadReply::RequestFailed(c) => ImageGenStep::Finished(
                error_from("Failed to download generated image", c),
            ),
            DownloadReply::ErrorStatus(st) => {
                let u = self.url.as_str();
                let len = u.as_bytes().len();
                let n = if len < 100 { len } else { 100 };
                let ghost bytes = encode_utf8(self.url@);
                proof {
                    vstd::utf8::encode_utf8_valid_utf8(u@);
                    vstd::utf8::is_char_boundary_start_end_of_seq(encode_utf8(u@));
                    assert(u.spec_bytes() == bytes);
                    assert(n == shown_url_len(self.url@));
                    assert(is_char_boundary(u.spec_bytes(), n as int));
                }
                let (shown, _) = u.split_at(n);
                proof {
                    vstd::utf8::encode_utf8_decode_utf8(shown@);
                    assert(shown.spec_bytes() == bytes.take(n as int));
                    assert(shown@ == shown_url(self.url@));
                }
                let mut msg = String::from_str("Failed to download image from ");
                msg.append(shown);
                msg.append(" (");
                msg.append(st.as_str());
                msg.append(")");
                ImageGenStep::Finished(refusal(msg))
            },
            DownloadReply::BodyFailed(c) => ImageGenStep::Finished(
                error_from("Failed to read image bytes", c),
            ),
            DownloadReply::Body(bytes) => ImageGenStep::Save(ImageSave { job: self.job, bytes }),
        }
    }
}

impl ImageSave {
    pub closed spec fn job(&self) -> JobView {
        self.job@
    }

    pub closed spec fn bytes_view(&self) -> Seq<u8> {
        self.bytes@
    }

    /// The directory, inside the workspace, that holds generated images.
    pub fn directory(&self) -> (r: &'static str)
        ensures
            r@ == "images"@,
    {
        "images"
    }

    /// The file name: the sanitised name, which cannot leave the images
    /// directory, and `.png`.
    pub fn file_name(&self) -> (r: String)
        ensures
            r@ == self.job().safe_name + ".png"@,
            is_plain_name(self.job().safe_name),
    {
        proof {
            use_type_invariant(&self.job);
        }
        let mut f = self.job.safe_name.clone();
        f.append(".png");
        f
    }

    /// The image bytes to write.
    pub fn bytes(&self) -> (r: &[u8])
        ensures
            r@ == self.bytes_view(),
    {
        self.bytes.as_slice()
    }

    /// Goes on with how saving ended; a saved image ends the run with a
    /// report of the file, its size in KB, the model and the prompt.
    pub fn resume(self, reply: SaveReply) -> (r: ImageGenStep)
        ensures
            match reply {
                SaveReply::DirFailed(c) => finished_error(
                    r,
                    "Failed to create images directory"@,
                    Some(c@),
                ),
                SaveReply::WriteFailed(c) => finished_error(
                    r,
                    "Failed to write image file"@,
                    Some(c@),
                ),
                SaveReply::Saved(p) => r matches ImageGenStep::Finished(o) && is_success(
                    o,
                    saved_message(p@, self.bytes_view().len(), self.job()),
                ),
            },
    {
        match reply {
            SaveReply::DirFailed(c) => ImageGenStep::Finished(
                error_from("Failed to create images directory", c),
            ),
            SaveReply::WriteFailed(c) => ImageGenStep::Finished(
                error_from("Failed to write image file", c),
            ),
            SaveReply::Saved(p) => {
                let kb = self.bytes.len() / 1024;
                let mut out = String::from_str("Image generated successfully.\nFile: ");
                out.append(p.as_str());
                out.append("\nSize: ");
                push_decimal(&mut out, kb as u64);
                out.append(" KB\nModel: ");
                out.append(self.job.model.as_str());
                out.append("\nPrompt: ");
                out.append(self.job.prompt.as_str());
                ImageGenStep::Finished(success(out))
            },
        }
    }
}

/// The image of an OpenRouter reply: the images entry when there is one,
/// else the image part of the content, else the content itself when it
/// begins with `http` or `data:image` (a data URI is taken like a link).
pub proof fn lemma_openrouter_image_url(img: OpenRouterImage)
    ensures
        img.images_url matches Some(u) ==> openrouter_image_url(img) == Some(u@),
        img.images_url is None ==> (img.content_url matches Some(u) ==> openrouter_image_url(img)
            == Some(u@)),
        img.images_url is None && img.content_url is None ==> (img.content matches Some(c) ==> (
        openrouter_image_url(img) == (if (c@.len() >= 4 && c@.take(4) == "http"@) || (c@.len() >= 10
            && c@.take(10) == "data:image"@) {
            Some(c@)
        } else {
            None
        }))),
        img.images_url is None && img.content_url is None && img.content is None
            ==> openrouter_image_url(img) is None,
{
    reveal_strlit("http");
    reveal_strlit("data:image");
    if let Some(c) = img.content {
        assert(c@.subrange(0, 4) == c@.take(4));
        assert(c@.subrange(0, 10) == c@.take(10));
    }
}

/// A model identifier holding `..`, `?`, `#` or a backslash anywhere is refused
/// before anything is sent, with the message that names it.
pub proof fn lemma_bad_model_refused(args: ImageGenArgs, default_model: Seq<char>, i: int)
    requires
        requested_prompt(args) is Some,
        0 <= i < requested_model(args, default_model).len(),
        ({
            let m = requested_model(args, default_model);
            ||| m[i] == '?'
            ||| m[i] == '#'
            ||| m[i] == '\\'
            ||| (i + 1 < m.len() && m[i] == '.' && m[i + 1] == '.')
        }),
    ensures
        planned_job(args, default_model) == Err::<JobView, Seq<char>>(
            invalid_model_message(requested_model(args, default_model)),
        ),
{
    let m = requested_model(args, default_model);
    reveal_strlit("..");
    if i + 1 < m.len() && m[i] == '.' && m[i + 1] == '.' {
        assert(m.subrange(i, i + 2) =~= ".."@);
        assert(crate::text::occurs_at(m, ".."@, i));
    }
}

/// Models are sent to OpenRouter exactly when they do not begin with
/// `fal-ai/`.
pub proof fn lemma_routing(m: Seq<char>)
    ensures
        targets_openrouter(m) == !(m.len() >= "fal-ai/"@.len() && m.take("fal-ai/"@.len() as int)
            == "fal-ai/"@),
{
    assert(m.subrange(0, "fal-ai/"@.len() as int) == m.take("fal-ai/"@.len() as int));
}

/// A request without a size asks for the `square_hd` preset; a request
/// with one asks for exactly that size.
pub proof fn lemma_default_size(args: ImageGenArgs, default_model: Seq<char>)
    ensures
        args.size is None ==> (planned_job(args, default_model) matches Ok(j) ==> j.size
            == "square_hd"@),
        args.size matches Some(s) ==> (planned_job(args, default_model) matches Ok(j) ==> j.size
            == s@),
{
}

/// A request that passes validation can only reach a service with a model
/// identifier free of `..`, `?`, `#` and `\`, a trimmed prompt that is not
/// empty, and an output name that cannot leave the images directory.
pub proof fn lemma_planned_job_is_safe(args: ImageGenArgs, default_model: Seq<char>)
    ensures
        planned_job(args, default_model) matches Ok(job) ==> {
            &&& model_is_valid(job.model)
            &&& job.prompt.len() > 0
            &&& trim(job.prompt) == job.prompt
            &&& is_plain_name(job.safe_name)
        },
{
    if let Ok(job) = planned_job(args, default_model) {
        let p = args.prompt.deep_view()->0;
        lemma_trim_idempotent(p);
        lemma_safe_name_is_plain(requested_filename(args));
    }
}

/// The API key handed to a service is the trimmed environment value, and
/// never empty.
pub proof fn lemma_api_key_is_trimmed(value: Option<Seq<char>>)
    ensures
        api_key_from(value) matches Some(k) ==> k.len() > 0 && trim(k) == k,
{
    if let Some(v) = value {
        lemma_trim_idempotent(v);
    }
}

} // verus!
