use std::path::PathBuf;
use zeroclaw_tools::filename::sanitize_filename;
use zeroclaw_tools::image_gen::ApiReply;
use zeroclaw_tools::image_gen::DownloadReply;
use zeroclaw_tools::image_gen::FalCall;
use zeroclaw_tools::image_gen::ImageGenArgs;
use zeroclaw_tools::image_gen::ImageGenStep;
use zeroclaw_tools::image_gen::ImageGenTool;
use zeroclaw_tools::image_gen::OpenRouterImage;
use zeroclaw_tools::image_gen::SaveReply;
use zeroclaw_tools::image_gen::pick_openrouter_image;
use zeroclaw_tools::image_gen::data_uri_payload;
use zeroclaw_tools::image_gen::is_valid_model;
use zeroclaw_tools::image_gen::is_valid_size;
use zeroclaw_tools::tool::Failure;
use zeroclaw_tools::tool::ToolResult;

fn test_tool() -> ImageGenTool<()> {
    ImageGenTool::new(
        (),
        PathBuf::from("/tmp"),
        "fal-ai/flux/schnell".into(),
        "FAL_API_KEY".into(),
    )
}

fn tool_with_env(env: &str) -> ImageGenTool<()> {
    ImageGenTool::new((), PathBuf::from("/tmp"), "fal-ai/flux/schnell".into(), env.into())
}

fn args(prompt: Option<&str>) -> ImageGenArgs {
    ImageGenArgs {
        prompt: prompt.map(String::from),
        filename: None,
        size: None,
        model: None,
    }
}

fn finished(step: ImageGenStep) -> Result<ToolResult, Failure> {
    match step {
        ImageGenStep::Finished(o) => o,
        _ => panic!("expected the run to be over"),
    }
}

fn refusal_text(step: ImageGenStep) -> String {
    let r = finished(step).ok().expect("expected a tool result");
    assert!(!r.success);
    assert!(r.output.is_empty());
    r.error.expect("expected an error text")
}

fn error_of(step: ImageGenStep) -> Failure {
    match finished(step) {
        Err(f) => f,
        Ok(_) => panic!("expected an error"),
    }
}

/// Runs a request up to the API call, with `key` as the environment value.
fn up_to_call(tool: &ImageGenTool<()>, a: &ImageGenArgs, key: Option<&str>) -> ImageGenStep {
    match tool.start(Ok(()), a) {
        ImageGenStep::ReadApiKey(k) => k.resume(key.map(String::from)),
        _ => panic!("expected the API key to be read"),
    }
}

#[test]
fn tool_name() {
    let tool = test_tool();
    assert_eq!(tool.name(), "image_gen");
}

#[test]
fn tool_description_is_nonempty() {
    let tool = test_tool();
    assert!(!tool.description().is_empty());
    assert!(tool.description().contains("image"));
}

#[test]
fn missing_prompt_returns_error() {
    let tool = test_tool();
    let err = refusal_text(tool.start(Ok(()), &args(None)));
    assert!(err.contains("prompt"));
}

#[test]
fn empty_prompt_returns_error() {
    let tool = test_tool();
    let err = refusal_text(tool.start(Ok(()), &args(Some("   "))));
    assert!(err.contains("prompt"));
}

#[test]
fn missing_api_key_returns_error() {
    let tool = tool_with_env("FAL_API_KEY_TEST_IMAGE_GEN");
    let step = up_to_call(&tool, &args(Some("a sunset over the ocean")), None);
    let err = refusal_text(step);
    assert!(err.contains("FAL_API_KEY_TEST_IMAGE_GEN"));
    assert_eq!(
        err,
        "Missing API key: set the FAL_API_KEY_TEST_IMAGE_GEN environment variable"
    );
}

#[test]
fn invalid_size_returns_error() {
    let tool = tool_with_env("FAL_API_KEY_TEST_SIZE");
    let mut a = args(Some("test"));
    a.size = Some("invalid_size".into());
    let err = refusal_text(up_to_call(&tool, &a, Some("dummy_key")));
    assert!(err.contains("Invalid size"));
    assert_eq!(
        err,
        "Invalid size 'invalid_size'. Valid: square_hd, landscape_4_3, portrait_4_3, landscape_16_9, portrait_16_9"
    );
}

#[test]
fn read_only_autonomy_blocks_execution() {
    let tool = test_tool();
    let verdict = Err("Security policy: read-only mode, cannot perform 'image_gen'".to_string());
    let err = refusal_text(tool.start(verdict, &args(Some("test image"))));
    assert!(
        err.contains("read-only") || err.contains("image_gen"),
        "expected read-only or image_gen in error, got: {err}"
    );
}

#[test]
fn invalid_model_with_traversal_returns_error() {
    let tool = tool_with_env("FAL_API_KEY_TEST_MODEL");
    let mut a = args(Some("test"));
    a.model = Some("../../evil-endpoint".into());
    let err = refusal_text(tool.start(Ok(()), &a));
    assert!(err.contains("Invalid model identifier"));
    assert_eq!(err, "Invalid model identifier '../../evil-endpoint'.");
}

#[test]
fn read_api_key_missing() {
    let result = ImageGenTool::<()>::read_api_key("DEFINITELY_NOT_SET_ZC_TEST_12345", None);
    assert!(result.is_err());
    assert!(result.unwrap_err().contains("DEFINITELY_NOT_SET_ZC_TEST_12345"));
}

#[test]
fn filename_traversal_is_sanitized() {
    // Path traversal in filenames is stripped to just the final component.
    let sanitized = sanitize_filename("../../etc/passwd");
    assert_eq!(sanitized, "passwd");

    // ".." alone has no file name, falls back to default.
    let sanitized = sanitize_filename("..");
    assert_eq!(sanitized, "generated_image");
}

#[test]
fn read_api_key_present() {
    let result = ImageGenTool::<()>::read_api_key("ZC_IMAGE_GEN_TEST_KEY", Some("test_value_123".into()));
    assert!(result.is_ok());
    assert_eq!(result.unwrap(), "test_value_123");
}

#[test]
fn read_api_key_is_trimmed_and_blank_is_missing() {
    let ok = ImageGenTool::<()>::read_api_key("K", Some("  abc \n".into()));
    assert_eq!(ok.unwrap(), "abc");
    let blank = ImageGenTool::<()>::read_api_key("K", Some(" \t ".into()));
    assert_eq!(blank.unwrap_err(), "Missing API key: set the K environment variable");
}

#[test]
fn sanitize_keeps_last_normal_component() {
    assert_eq!(sanitize_filename("cat"), "cat");
    assert_eq!(sanitize_filename("a/b/"), "b");
    assert_eq!(sanitize_filename("a/b/."), "b");
    assert_eq!(sanitize_filename("a/.."), "generated_image");
    assert_eq!(sanitize_filename("/"), "generated_image");
    assert_eq!(sanitize_filename("."), "generated_image");
    assert_eq!(sanitize_filename("./"), "generated_image");
    assert_eq!(sanitize_filename("/abs/name"), "name");
    assert_eq!(sanitize_filename("a//b//"), "b");
    assert_eq!(sanitize_filename("...") , "...");
}

#[test]
fn sanitize_agrees_with_std_file_name() {
    for input in ["../../etc/passwd", "..", "a/b/", "a/b/.", "./x", "x/./", "/", "", "a/..", "..a", "é/ü.png"] {
        let expected = PathBuf::from(input)
            .file_name()
            .map_or_else(|| "generated_image".to_string(), |n| n.to_string_lossy().to_string());
        assert_eq!(sanitize_filename(input), expected, "input {input:?}");
    }
}

#[test]
fn openrouter_routing() {
    assert!(!ImageGenTool::<()>::is_openrouter_model("fal-ai/flux/schnell"));
    assert!(ImageGenTool::<()>::is_openrouter_model("google/gemini-2.5-flash-image"));
    assert!(ImageGenTool::<()>::is_openrouter_model("fal-ai"));
}

#[test]
fn model_and_size_validation() {
    assert!(is_valid_model("fal-ai/flux/schnell"));
    assert!(!is_valid_model("a..b"));
    assert!(!is_valid_model("model?x=1"));
    assert!(!is_valid_model("model#frag"));
    assert!(!is_valid_model("a\\b"));
    assert!(is_valid_model("a.b"));
    for s in ["square_hd", "landscape_4_3", "portrait_4_3", "landscape_16_9", "portrait_16_9"] {
        assert!(is_valid_size(s));
    }
    assert!(!is_valid_size("square"));
    assert!(!is_valid_size(""));
}

#[test]
fn fal_request_is_built_from_the_job() {
    let tool = test_tool();
    let mut a = args(Some("  a red fox  "));
    a.size = Some("portrait_4_3".into());
    match up_to_call(&tool, &a, Some(" secret ")) {
        ImageGenStep::CallFal(c) => {
            assert_eq!(c.url(), "https://fal.run/fal-ai/flux/schnell");
            assert_eq!(c.authorization(), "Key secret");
            assert_eq!(c.prompt(), "a red fox");
            assert_eq!(c.image_size(), "portrait_4_3");
            assert_eq!(c.num_images(), 1);
        }
        _ => panic!("expected a fal.ai call"),
    }
}

#[test]
fn openrouter_request_ignores_size() {
    let tool = test_tool();
    let mut a = args(Some("a fox"));
    a.model = Some("bytedance/seedream-4.5".into());
    a.size = Some("not_a_size".into());
    match up_to_call(&tool, &a, Some("k")) {
        ImageGenStep::CallOpenRouter(c) => {
            assert_eq!(c.url(), "https://openrouter.ai/api/v1/chat/completions");
            assert_eq!(c.authorization(), "Bearer k");
            assert_eq!(c.model(), "bytedance/seedream-4.5");
            assert_eq!(c.message(), "Generate an image: a fox. Only output the image, no text.");
            assert_eq!(c.referer(), "https://zeroclaw.dev");
        }
        _ => panic!("expected an OpenRouter call"),
    }
}

#[test]
fn blank_model_falls_back_to_default() {
    let tool = test_tool();
    let mut a = args(Some("p"));
    a.model = Some("  ".into());
    match up_to_call(&tool, &a, Some("k")) {
        ImageGenStep::CallFal(c) => assert_eq!(c.url(), "https://fal.run/fal-ai/flux/schnell"),
        _ => panic!("expected a fal.ai call"),
    }
}

fn fal_call(tool: &ImageGenTool<()>, filename: Option<&str>) -> FalCall {
    let mut a = args(Some("a cat"));
    a.filename = filename.map(String::from);
    match up_to_call(tool, &a, Some("k")) {
        ImageGenStep::CallFal(c) => c,
        _ => panic!("expected a fal.ai call"),
    }
}

#[test]
fn fal_reply_errors() {
    let tool = test_tool();
    let e = error_of(fal_call(&tool, None).resume(ApiReply::RequestFailed("timeout".into())));
    assert_eq!(e.message, "fal.ai request failed");
    assert_eq!(e.cause.as_deref(), Some("timeout"));
    let e = error_of(fal_call(&tool, None).resume(ApiReply::ErrorStatus("401 Unauthorized".into(), "bad key".into())));
    assert_eq!(e.message, "fal.ai API error (401 Unauthorized): bad key");
    assert!(e.cause.is_none());
    let e = error_of(fal_call(&tool, None).resume(ApiReply::BadJson("eof".into())));
    assert_eq!(e.message, "Failed to parse fal.ai response");
    let e = error_of(fal_call(&tool, None).resume(ApiReply::Json(None)));
    assert_eq!(e.message, "No image URL in fal.ai response");
}

#[test]
fn http_image_is_downloaded_then_saved() {
    let tool = test_tool();
    let step = fal_call(&tool, Some("../out/pic")).resume(ApiReply::Json(Some("https://x.test/img.png".into())));
    let download = match step {
        ImageGenStep::Download(d) => d,
        _ => panic!("expected a download"),
    };
    assert_eq!(download.url(), "https://x.test/img.png");
    let save = match download.resume(DownloadReply::Body(vec![7u8; 3000])) {
        ImageGenStep::Save(s) => s,
        _ => panic!("expected a save"),
    };
    assert_eq!(save.directory(), "images");
    assert_eq!(save.file_name(), "pic.png");
    assert_eq!(save.bytes().len(), 3000);
    let r = finished(save.resume(SaveReply::Saved("/w/images/pic.png".into()))).ok().unwrap();
    assert!(r.success);
    assert!(r.error.is_none());
    assert_eq!(
        r.output,
        "Image generated successfully.\nFile: /w/images/pic.png\nSize: 2 KB\nModel: fal-ai/flux/schnell\nPrompt: a cat"
    );
}

#[test]
fn data_uri_is_decoded() {
    let tool = test_tool();
    let step = fal_call(&tool, None).resume(ApiReply::Json(Some("data:image/png;base64,aGVsbG8=".into())));
    match step {
        ImageGenStep::Save(s) => {
            assert_eq!(s.bytes(), b"hello");
            assert_eq!(s.file_name(), "generated_image.png");
        }
        _ => panic!("expected the decoded image to be saved"),
    }
}

#[test]
fn bad_base64_is_an_error() {
    let tool = test_tool();
    let e = error_of(fal_call(&tool, None).resume(ApiReply::Json(Some("data:image/png;base64,@@@".into()))));
    assert_eq!(e.message, "Failed to decode base64 image data");
    assert!(e.cause.is_some());
}

#[test]
fn data_payload_follows_first_comma() {
    assert_eq!(data_uri_payload("data:image/png;base64,AA,BB"), "AA,BB");
    assert_eq!(data_uri_payload("data:image/png"), "data:image/png");
}

#[test]
fn openrouter_reply_formats() {
    let none = OpenRouterImage { images_url: None, content_url: None, content: None };
    assert_eq!(pick_openrouter_image(none), None);
    let first = OpenRouterImage {
        images_url: Some("data:image/png;base64,AA".into()),
        content_url: Some("http://b".into()),
        content: Some("http://c".into()),
    };
    assert_eq!(pick_openrouter_image(first).as_deref(), Some("data:image/png;base64,AA"));
    let second = OpenRouterImage { images_url: None, content_url: Some("http://b".into()), content: None };
    assert_eq!(pick_openrouter_image(second).as_deref(), Some("http://b"));
    let third = OpenRouterImage { images_url: None, content_url: None, content: Some("https://c".into()) };
    assert_eq!(pick_openrouter_image(third).as_deref(), Some("https://c"));
    let text = OpenRouterImage { images_url: None, content_url: None, content: Some("Here is your image".into()) };
    assert_eq!(pick_openrouter_image(text), None);
}

#[test]
fn openrouter_without_image_is_an_error() {
    let tool = test_tool();
    let mut a = args(Some("a fox"));
    a.model = Some("google/gemini-2.5-flash-image".into());
    let call = match up_to_call(&tool, &a, Some("k")) {
        ImageGenStep::CallOpenRouter(c) => c,
        _ => panic!("expected an OpenRouter call"),
    };
    let reply = OpenRouterImage { images_url: None, content_url: None, content: Some("no".into()) };
    let e = error_of(call.resume(ApiReply::Json(reply)));
    assert_eq!(e.message, "No image found in OpenRouter response. Check model supports image output.");
}

#[test]
fn download_error_status_shows_url_start() {
    let tool = test_tool();
    let long_url = format!("https://x.test/{}", "a".repeat(200));
    let d = match fal_call(&tool, None).resume(ApiReply::Json(Some(long_url.clone()))) {
        ImageGenStep::Download(d) => d,
        _ => panic!("expected a download"),
    };
    let err = refusal_text(d.resume(DownloadReply::ErrorStatus("404 Not Found".into())));
    assert_eq!(err, format!("Failed to download image from {} (404 Not Found)", &long_url[..100]));
}

#[test]
fn download_and_save_failures_are_errors() {
    let tool = test_tool();
    let get = || match fal_call(&tool, None).resume(ApiReply::Json(Some("http://x".into()))) {
        ImageGenStep::Download(d) => d,
        _ => panic!("expected a download"),
    };
    assert_eq!(error_of(get().resume(DownloadReply::RequestFailed("dns".into()))).message, "Failed to download generated image");
    assert_eq!(error_of(get().resume(DownloadReply::BodyFailed("reset".into()))).message, "Failed to read image bytes");
    let save = || match get().resume(DownloadReply::Body(vec![1, 2])) {
        ImageGenStep::Save(s) => s,
        _ => panic!("expected a save"),
    };
    assert_eq!(error_of(save().resume(SaveReply::DirFailed("ro".into()))).message, "Failed to create images directory");
    assert_eq!(error_of(save().resume(SaveReply::WriteFailed("full".into()))).message, "Failed to write image file");
}

#[test]
fn tool_schema_has_required_prompt() {
    let tool = test_tool();
    let schema = tool.parameters_schema();
    assert_eq!(schema.required, vec!["prompt".to_string()]);
    assert!(schema.params.iter().any(|p| p.name == "prompt"));
}

#[test]
fn tool_schema_has_optional_params() {
    let tool = test_tool();
    let schema = tool.parameters_schema();
    assert!(schema.params.iter().any(|p| p.name == "filename"));
    assert!(schema.params.iter().any(|p| p.name == "size"));
    assert!(schema.params.iter().any(|p| p.name == "model"));
}

#[test]
fn schema_sizes_are_the_accepted_sizes() {
    let schema = test_tool().parameters_schema();
    let size = schema.params.iter().find(|p| p.name == "size").unwrap();
    assert_eq!(
        size.choices,
        vec!["square_hd", "landscape_4_3", "portrait_4_3", "landscape_16_9", "portrait_16_9"]
    );
    assert!(size.choices.iter().all(|c| is_valid_size(c)));
}
