use asset_pipeline::dispatch::{parse_request, respond, DEFAULT_WIDTH, WORKER_STACK_BYTES};
use asset_pipeline::error::PipelineError;
use asset_pipeline::thumbs::{
    cache_file_name, cache_step, plan_thumbnail, scaled_height, serve_source, serve_thumbnail,
    CacheStep, SourceProbe, ThumbPlan,
};
use sha2::{Digest, Sha256};

fn dims(width: u32, height: u32) -> SourceProbe {
    SourceProbe::Dimensions { width, height }
}

#[test]
fn request_with_width_and_root() {
    let r = parse_request("thumb://localhost/_temp%2Fabc.png?w=400&root=%2Fhome%2Fme%2Fproj");
    assert_eq!(r.path, "_temp/abc.png");
    assert_eq!(r.target_width, 400);
    assert_eq!(r.project_root, Some("/home/me/proj".to_string()));
}

#[test]
fn request_without_query() {
    let r = parse_request("thumb://localhost/assets/a%20b.png");
    assert_eq!(r.path, "assets/a b.png");
    assert_eq!(r.target_width, DEFAULT_WIDTH);
    assert_eq!(r.target_width, 0);
    assert_eq!(r.project_root, None);
}

#[test]
fn request_without_host() {
    let r = parse_request("thumb:///abs/a.png?w=12");
    assert_eq!(r.path, "/abs/a.png");
    assert_eq!(r.target_width, 12);
    let bare = parse_request("plain/path.png?w=3");
    assert_eq!(bare.path, "plain/path.png");
    assert_eq!(bare.target_width, 3);
}

#[test]
fn malformed_width_falls_back_to_the_default() {
    assert_eq!(parse_request("thumb://localhost/a.png?w=abc").target_width, 0);
    assert_eq!(parse_request("thumb://localhost/a.png?w=").target_width, 0);
    assert_eq!(parse_request("thumb://localhost/a.png?w=-1").target_width, 0);
    assert_eq!(parse_request("thumb://localhost/a.png?w=1.5").target_width, 0);
    assert_eq!(parse_request("thumb://localhost/a.png?w= 5").target_width, 0);
    assert_eq!(parse_request("thumb://localhost/a.png?w=4294967296").target_width, 0);
}

#[test]
fn width_forms_that_are_numbers() {
    assert_eq!(parse_request("x?w=+5").target_width, 5);
    assert_eq!(parse_request("x?w=007").target_width, 7);
    assert_eq!(parse_request("x?w=4294967295").target_width, 4294967295);
    assert_eq!(parse_request("x?w=0").target_width, 0);
}

#[test]
fn later_pairs_override_earlier_ones() {
    let r = parse_request("x?w=10&w=20&root=a&root=b");
    assert_eq!(r.target_width, 20);
    assert_eq!(r.project_root, Some("b".to_string()));
    assert_eq!(parse_request("x?w=10&w=zz").target_width, 0);
}

#[test]
fn unknown_pairs_and_bare_keys_are_ignored() {
    let r = parse_request("x?foo=1&w&root&w=9&&h=3");
    assert_eq!(r.target_width, 9);
    assert_eq!(r.project_root, None);
}

#[test]
fn query_ends_at_a_second_question_mark() {
    let r = parse_request("x?w=5?w=6");
    assert_eq!(r.path, "x");
    assert_eq!(r.target_width, 5);
    assert_eq!(parse_request("x?").target_width, 0);
}

#[test]
fn value_may_hold_equal_signs() {
    let r = parse_request("x?root=a=b");
    assert_eq!(r.project_root, Some("a=b".to_string()));
}

#[test]
fn undecodable_text_is_kept_or_skipped() {
    let r = parse_request("thumb://localhost/%FF.png?root=%FF");
    assert_eq!(r.path, "%FF.png");
    assert_eq!(r.project_root, None);
    let kept = parse_request("x?root=good&root=%FF");
    assert_eq!(kept.project_root, Some("good".to_string()));
}

#[test]
fn percent_sequences_are_decoded() {
    let r = parse_request("thumb://localhost/%E4%B8%AD.png?root=C%3A%5Cproj");
    assert_eq!(r.path, "\u{4e2d}.png");
    assert_eq!(r.project_root, Some("C:\\proj".to_string()));
}

#[test]
fn aspect_ratio_is_kept() {
    assert_eq!(scaled_height(1000, 500, 400), 200);
    match plan_thumbnail("/a/b.png", 400, dims(1000, 500)) {
        ThumbPlan::Thumbnail { width, height, .. } => {
            assert_eq!(width, 400);
            assert_eq!(height, 200);
        }
        other => panic!("{:?}", other),
    }
}

#[test]
fn scaled_height_rounds_to_nearest() {
    assert_eq!(scaled_height(3, 2, 2), 1);
    assert_eq!(scaled_height(3, 5, 2), 3);
    assert_eq!(scaled_height(4, 3, 2), 2);
    assert_eq!(scaled_height(3, 1, 1), 0);
    assert_eq!(scaled_height(7, 7, 7), 7);
    assert_eq!(scaled_height(1, 0, 1), 0);
}

#[test]
fn scaled_height_at_the_limits() {
    assert_eq!(scaled_height(u32::MAX, u32::MAX, u32::MAX), u32::MAX);
    assert_eq!(scaled_height(u32::MAX, u32::MAX, 1), 1);
    assert_eq!(scaled_height(u32::MAX, 1, 1), 0);
}

#[test]
fn no_upscaling() {
    assert!(matches!(plan_thumbnail("/a.png", 2000, dims(800, 600)), ThumbPlan::Passthrough));
    assert!(matches!(plan_thumbnail("/a.png", 801, dims(800, 600)), ThumbPlan::Passthrough));
    assert!(matches!(plan_thumbnail("/a.png", 0, dims(800, 600)), ThumbPlan::Passthrough));
    assert!(matches!(plan_thumbnail("/a.png", 0, dims(0, 0)), ThumbPlan::Passthrough));
    assert!(matches!(plan_thumbnail("/a.png", 1, dims(0, 0)), ThumbPlan::Passthrough));
}

#[test]
fn own_width_serves_the_source() {
    assert!(matches!(plan_thumbnail("/a.png", 800, dims(800, 600)), ThumbPlan::Passthrough));
    assert!(matches!(plan_thumbnail("/a.png", 1, dims(1, 1)), ThumbPlan::Passthrough));
}

#[test]
fn width_just_below_the_sources_is_a_thumbnail() {
    match plan_thumbnail("/a.png", 799, dims(800, 600)) {
        ThumbPlan::Thumbnail { width, height, cache_name } => {
            assert_eq!((width, height), (799, 599));
            assert_eq!(cache_name, cache_file_name("/a.png", 799));
        }
        other => panic!("{:?}", other),
    }
}

#[test]
fn missing_and_unreadable_sources_fail() {
    match plan_thumbnail("/gone.png", 100, SourceProbe::Missing) {
        ThumbPlan::Fail(PipelineError::SourceNotFound(p)) => assert_eq!(p, "/gone.png"),
        other => panic!("{:?}", other),
    }
    match plan_thumbnail("/bad.png", 0, SourceProbe::Unreadable) {
        ThumbPlan::Fail(PipelineError::ProbeFailed(p)) => assert_eq!(p, "/bad.png"),
        other => panic!("{:?}", other),
    }
}

#[test]
fn cache_name_is_hash_of_key_then_width() {
    let expected = format!("{}_400.png", hex::encode(Sha256::digest(b"/a/b.png?w=400")));
    assert_eq!(cache_file_name("/a/b.png", 400), expected);
    let big = format!("{}_4294967295.png", hex::encode(Sha256::digest(b"p?w=4294967295")));
    assert_eq!(cache_file_name("p", u32::MAX), big);
    let zero = format!("{}_0.png", hex::encode(Sha256::digest(b"?w=0")));
    assert_eq!(cache_file_name("", 0), zero);
}

#[test]
fn cache_name_is_stable_and_tells_requests_apart() {
    assert_eq!(cache_file_name("/a.png", 64), cache_file_name("/a.png", 64));
    assert_ne!(cache_file_name("/a.png", 64), cache_file_name("/a.png", 65));
    assert_ne!(cache_file_name("/a.png", 64), cache_file_name("/b.png", 64));
}

#[test]
fn cached_entry_is_served_without_generating() {
    assert_eq!(cache_step(true), CacheStep::ServeCached);
    assert_eq!(cache_step(false), CacheStep::Generate);
}

#[test]
fn source_is_served_under_its_own_type() {
    let served = serve_source("/a/photo.jpg", vec![1, 2, 3]);
    assert_eq!(served.bytes, vec![1, 2, 3]);
    assert_eq!(served.mime_type, "image/jpeg");
    assert_eq!(serve_source("x.PNG", vec![]).mime_type, "image/png");
    assert_eq!(serve_source("noext", vec![]).mime_type, "application/octet-stream");
    assert_eq!(serve_source("a.zzzzunknown", vec![]).mime_type, "application/octet-stream");
}

#[test]
fn thumbnail_is_served_as_png() {
    let served = serve_thumbnail(vec![9, 8]);
    assert_eq!(served.bytes, vec![9, 8]);
    assert_eq!(served.mime_type, "image/png");
}

#[test]
fn response_to_success() {
    let r = respond(Some(Ok(serve_thumbnail(vec![1, 2]))));
    assert_eq!(r.status, 200);
    assert_eq!(r.body, vec![1, 2]);
    assert_eq!(
        r.headers,
        vec![
            ("Content-Type".to_string(), "image/png".to_string()),
            ("Access-Control-Allow-Origin".to_string(), "*".to_string()),
            ("Cache-Control".to_string(), "public, max-age=31536000".to_string()),
        ]
    );
}

#[test]
fn response_to_unresolved_path() {
    let r = respond(None);
    assert_eq!(r.status, 404);
    assert_eq!(r.body, b"File not found".to_vec());
    assert!(r.headers.is_empty());
}

#[test]
fn response_to_failure_carries_the_message() {
    let r = respond(Some(Err(PipelineError::SourceNotFound("/gone.png".to_string()))));
    assert_eq!(r.status, 500);
    assert_eq!(r.body, b"Source file not found: \"/gone.png\"".to_vec());
    assert!(r.headers.is_empty());
    let io = respond(Some(Err(PipelineError::IoFailure("disk full".to_string()))));
    assert_eq!(io.body, b"disk full".to_vec());
}

#[test]
fn messages_of_each_failure() {
    assert_eq!(PipelineError::DecodeFailure("bad".to_string()).message(), "bad");
    assert_eq!(PipelineError::IoFailure("io".to_string()).message(), "io");
    assert_eq!(PipelineError::PathUnresolved.message(), "File not found");
    assert_eq!(
        PipelineError::SourceNotFound("/a \"b\"\n".to_string()).message(),
        "Source file not found: \"/a \\\"b\\\"\\n\""
    );
    assert_eq!(
        PipelineError::SourceNotFound("/x".to_string()).message(),
        "Source file not found: \"/x\""
    );
    assert_eq!(
        PipelineError::ProbeFailed("/x".to_string()).message(),
        "无法获取图片宽度: /x"
    );
}

#[test]
fn worker_stack_is_eight_mebibytes() {
    assert_eq!(WORKER_STACK_BYTES, 8 * 1024 * 1024);
}
