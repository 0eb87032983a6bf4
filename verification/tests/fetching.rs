use asset_pipeline::error::PipelineError;
use asset_pipeline::fetch::{begin_fetch, fetch_step, FetchAction, FetchEvent, FetchState, FetchStep};
use asset_pipeline::thumbs::{cache_file_name, SourceProbe};
use image::{DynamicImage, ImageFormat, RgbImage};
use std::io::Cursor;

fn plain_png(width: u32, height: u32) -> Vec<u8> {
    let mut out = Cursor::new(Vec::new());
    DynamicImage::ImageRgb8(RgbImage::new(width, height))
        .write_to(&mut out, ImageFormat::Png)
        .unwrap();
    out.into_inner()
}

fn probed(width: u32, height: u32) -> FetchEvent {
    FetchEvent::Probed(SourceProbe::Dimensions { width, height })
}

fn next(step: FetchStep) -> (FetchState, FetchAction) {
    match step {
        FetchStep::Next { state, action } => (state, action),
        FetchStep::Done(outcome) => panic!("{:?}", outcome.map(|s| s.mime_type)),
    }
}

fn done(step: FetchStep) -> Result<(Vec<u8>, String), PipelineError> {
    match step {
        FetchStep::Done(outcome) => outcome.map(|s| (s.bytes, s.mime_type)),
        FetchStep::Next { state, action } => panic!("{:?} {:?}", state, action),
    }
}

#[test]
fn fetch_begins_by_probing() {
    assert!(matches!(begin_fetch(), FetchState::Probing));
}

#[test]
fn fetch_of_a_missing_source_fails_at_once() {
    let step = fetch_step("/gone.png", 100, begin_fetch(), FetchEvent::Probed(SourceProbe::Missing));
    match done(step) {
        Err(PipelineError::SourceNotFound(p)) => assert_eq!(p, "/gone.png"),
        other => panic!("{:?}", other),
    }
}

#[test]
fn fetch_of_an_unreadable_source_fails_at_once() {
    let step =
        fetch_step("/bad.png", 100, begin_fetch(), FetchEvent::Probed(SourceProbe::Unreadable));
    assert!(matches!(done(step), Err(PipelineError::ProbeFailed(p)) if p == "/bad.png"));
}

#[test]
fn fetch_beyond_the_sources_width_serves_the_source_bytes() {
    let (state, action) = next(fetch_step("/a.jpg", 2000, begin_fetch(), probed(800, 600)));
    assert!(matches!(state, FetchState::ReadingSource));
    assert!(matches!(action, FetchAction::ReadSource));
    let served = done(fetch_step("/a.jpg", 2000, state, FetchEvent::Read(Ok(vec![1, 2, 3]))));
    assert_eq!(served.unwrap(), (vec![1, 2, 3], "image/jpeg".to_string()));
}

#[test]
fn fetch_without_width_serves_the_source_bytes() {
    let (state, _) = next(fetch_step("/a.png", 0, begin_fetch(), probed(800, 600)));
    let served = done(fetch_step("/a.png", 0, state, FetchEvent::Read(Ok(vec![9]))));
    assert_eq!(served.unwrap(), (vec![9], "image/png".to_string()));
}

#[test]
fn fetch_reports_a_failed_read_of_the_source() {
    let (state, _) = next(fetch_step("/a.png", 0, begin_fetch(), probed(800, 600)));
    let step = fetch_step("/a.png", 0, state, FetchEvent::Read(Err("denied".to_string())));
    assert!(matches!(done(step), Err(PipelineError::IoFailure(m)) if m == "denied"));
}

#[test]
fn fetch_of_a_thumbnail_asks_the_cache_first() {
    let (state, action) = next(fetch_step("/a.png", 400, begin_fetch(), probed(1000, 500)));
    let name = cache_file_name("/a.png", 400);
    match state {
        FetchState::LookingUp { cache_name, width, height } => {
            assert_eq!(cache_name, name);
            assert_eq!((width, height), (400, 200));
        }
        other => panic!("{:?}", other),
    }
    assert!(matches!(action, FetchAction::LookUp { cache_name } if cache_name == name));
}

#[test]
fn cached_thumbnail_is_served_without_reading_the_source() {
    let (state, _) = next(fetch_step("/a.png", 400, begin_fetch(), probed(1000, 500)));
    let (state, action) = next(fetch_step("/a.png", 400, state, FetchEvent::Found(true)));
    assert!(matches!(state, FetchState::ReadingCached));
    let name = cache_file_name("/a.png", 400);
    assert!(matches!(action, FetchAction::ReadCached { cache_name } if cache_name == name));
    let served = done(fetch_step("/a.png", 400, state, FetchEvent::Read(Ok(b"cached".to_vec()))));
    assert_eq!(served.unwrap(), (b"cached".to_vec(), "image/png".to_string()));
}

#[test]
fn missing_thumbnail_is_rendered_stored_and_served() {
    let (state, _) = next(fetch_step("/a.png", 400, begin_fetch(), probed(1000, 500)));
    let (state, action) = next(fetch_step("/a.png", 400, state, FetchEvent::Found(false)));
    assert!(matches!(state, FetchState::Rendering { width: 400, height: 200, .. }));
    assert!(matches!(action, FetchAction::ReadSource));
    let source = plain_png(1000, 500);
    let (state, action) = next(fetch_step("/a.png", 400, state, FetchEvent::Read(Ok(source))));
    let name = cache_file_name("/a.png", 400);
    assert!(matches!(action, FetchAction::Store { cache_name } if cache_name == name));
    let fresh = match &state {
        FetchState::Storing { bytes } => bytes.clone(),
        other => panic!("{:?}", other),
    };
    let decoded = image::load_from_memory(&fresh).unwrap();
    assert_eq!((decoded.width(), decoded.height()), (400, 200));
    let served = done(fetch_step("/a.png", 400, state, FetchEvent::Stored(Ok(()))));
    assert_eq!(served.unwrap(), (fresh, "image/png".to_string()));
}

#[test]
fn second_fetch_gives_the_bytes_of_the_first() {
    let (state, _) = next(fetch_step("/a.png", 8, begin_fetch(), probed(16, 16)));
    let (state, _) = next(fetch_step("/a.png", 8, state, FetchEvent::Found(false)));
    let (state, _) = next(fetch_step("/a.png", 8, state, FetchEvent::Read(Ok(plain_png(16, 16)))));
    let stored = match &state {
        FetchState::Storing { bytes } => bytes.clone(),
        other => panic!("{:?}", other),
    };
    let first = done(fetch_step("/a.png", 8, state, FetchEvent::Stored(Ok(())))).unwrap();

    let (state, _) = next(fetch_step("/a.png", 8, begin_fetch(), probed(16, 16)));
    let (state, _) = next(fetch_step("/a.png", 8, state, FetchEvent::Found(true)));
    let second = done(fetch_step("/a.png", 8, state, FetchEvent::Read(Ok(stored)))).unwrap();
    assert_eq!(first, second);
}

#[test]
fn source_that_is_no_image_fails_to_render() {
    let (state, _) = next(fetch_step("/a.png", 400, begin_fetch(), probed(1000, 500)));
    let (state, _) = next(fetch_step("/a.png", 400, state, FetchEvent::Found(false)));
    let step = fetch_step("/a.png", 400, state, FetchEvent::Read(Ok(b"garbage".to_vec())));
    assert!(matches!(done(step), Err(PipelineError::DecodeFailure(_))));
}

#[test]
fn thumbnail_that_cannot_be_stored_is_not_served() {
    let (state, _) = next(fetch_step("/a.png", 2, begin_fetch(), probed(4, 4)));
    let (state, _) = next(fetch_step("/a.png", 2, state, FetchEvent::Found(false)));
    let (state, _) = next(fetch_step("/a.png", 2, state, FetchEvent::Read(Ok(plain_png(4, 4)))));
    let step = fetch_step("/a.png", 2, state, FetchEvent::Stored(Err("disk full".to_string())));
    assert!(matches!(done(step), Err(PipelineError::IoFailure(m)) if m == "disk full"));
}

#[test]
fn answer_that_does_not_fit_the_state_ends_the_fetch() {
    let step = fetch_step("/a.png", 400, begin_fetch(), FetchEvent::Found(true));
    assert!(matches!(done(step), Err(PipelineError::IoFailure(m)) if m == "Unexpected answer"));
    let (state, _) = next(fetch_step("/a.png", 400, begin_fetch(), probed(1000, 500)));
    let step = fetch_step("/a.png", 400, state, FetchEvent::Stored(Ok(())));
    assert!(matches!(done(step), Err(PipelineError::IoFailure(m)) if m == "Unexpected answer"));
}

#[test]
fn source_with_a_broken_body_fails_and_nothing_is_stored() {
    let mut source = plain_png(1000, 500);
    source.truncate(60);
    let (state, _) = next(fetch_step("/a.png", 400, begin_fetch(), probed(1000, 500)));
    let (state, _) = next(fetch_step("/a.png", 400, state, FetchEvent::Found(false)));
    let step = fetch_step("/a.png", 400, state, FetchEvent::Read(Ok(source)));
    assert!(matches!(done(step), Err(PipelineError::DecodeFailure(m)) if !m.is_empty()));
}

#[test]
fn fetch_at_the_sources_own_width_serves_the_source_bytes() {
    let (state, action) = next(fetch_step("/src/a.jpg", 800, begin_fetch(), probed(800, 600)));
    assert!(matches!(state, FetchState::ReadingSource));
    assert!(matches!(action, FetchAction::ReadSource));
    let bytes = vec![0xff, 0xd8, 0xff, 0xe0, 1, 2, 3];
    let served = done(fetch_step("/src/a.jpg", 800, state, FetchEvent::Read(Ok(bytes.clone()))));
    assert_eq!(served.unwrap(), (bytes, "image/jpeg".to_string()));
}
