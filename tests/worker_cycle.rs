use thumbnail_pipeline::job::{derived_name, Job};
use thumbnail_pipeline::thumbnail::{make_thumbnail, TransformError};
use thumbnail_pipeline::worker::{
    step, CycleError, CycleOutcome, WorkerAction, WorkerConfig, WorkerEvent, WorkerState,
};

fn png_bytes(width: u32, height: u32) -> Vec<u8> {
    let img = image::DynamicImage::ImageRgb8(image::RgbImage::new(width, height));
    let mut out: Vec<u8> = Vec::new();
    img.write_to(&mut std::io::Cursor::new(&mut out), image::ImageFormat::Png)
        .unwrap();
    out
}

fn receiving(cfg: &WorkerConfig) -> WorkerState {
    let (s, a) = step(cfg, WorkerState::Idle, WorkerEvent::Start);
    assert!(matches!(a, WorkerAction::ReceiveJob));
    s
}

fn reading(cfg: &WorkerConfig, filename: &str) -> WorkerState {
    let s = receiving(cfg);
    let job = Job::new(filename.to_string(), "images".to_string());
    let (s, a) = step(cfg, s, WorkerEvent::Received(job));
    match a {
        WorkerAction::ReadObject { container, name, chunk_size } => {
            assert_eq!(container, "images");
            assert_eq!(name, filename);
            assert_eq!(chunk_size, 8192);
        }
        other => panic!("unexpected action {:?}", other),
    }
    s
}

#[test]
fn empty_queue_ends_cycle_without_store_calls() {
    let cfg = WorkerConfig::standard();
    let s = receiving(&cfg);
    let (s, a) = step(&cfg, s, WorkerEvent::QueueEmpty);
    assert!(matches!(a, WorkerAction::Finish(CycleOutcome::NoMessage)));
    assert!(matches!(s, WorkerState::Done(CycleOutcome::NoMessage)));
    let (s, a) = step(&cfg, s, WorkerEvent::ReadFinished);
    assert!(matches!(a, WorkerAction::Continue));
    assert!(matches!(s, WorkerState::Done(CycleOutcome::NoMessage)));
}

#[test]
fn cat_png_is_shrunk_and_stored_under_derived_name() {
    let cfg = WorkerConfig::standard();
    let s = reading(&cfg, "cat.png");
    let bytes = png_bytes(200, 100);
    let half = bytes.len() / 2;
    let (s, a) = step(&cfg, s, WorkerEvent::Chunk(bytes[..half].to_vec()));
    assert!(matches!(a, WorkerAction::Continue));
    let (s, a) = step(&cfg, s, WorkerEvent::Chunk(bytes[half..].to_vec()));
    assert!(matches!(a, WorkerAction::Continue));
    match &s {
        WorkerState::Reading { buffer, .. } => assert_eq!(buffer, &bytes),
        other => panic!("unexpected state {:?}", other),
    }
    let (s, a) = step(&cfg, s, WorkerEvent::ReadFinished);
    match a {
        WorkerAction::WriteObject { container, name, content_type, bytes } => {
            assert_eq!(container, "images");
            assert_eq!(name, "resized_cat.png");
            assert_eq!(content_type, "image/jpeg");
            assert_eq!(image::guess_format(&bytes).unwrap(), image::ImageFormat::Jpeg);
            assert_eq!(Ok(bytes.clone()), make_thumbnail(&png_bytes(200, 100), 100, 100));
            let thumb = image::load_from_memory(&bytes).unwrap();
            assert_eq!((thumb.width(), thumb.height()), (100, 50));
        }
        other => panic!("unexpected action {:?}", other),
    }
    let (s, a) = step(&cfg, s, WorkerEvent::WriteSucceeded);
    assert!(matches!(a, WorkerAction::Finish(CycleOutcome::Completed)));
    assert!(matches!(s, WorkerState::Done(CycleOutcome::Completed)));
}

#[test]
fn missing_source_object_reports_read_error_and_writes_nothing() {
    let cfg = WorkerConfig::standard();
    let s = reading(&cfg, "gone.png");
    let (s, a) = step(&cfg, s, WorkerEvent::ReadFailed);
    assert!(matches!(a, WorkerAction::Finish(CycleOutcome::Failed(CycleError::StoreRead))));
    let (s, a) = step(&cfg, s, WorkerEvent::ReadFinished);
    assert!(matches!(a, WorkerAction::Continue));
    assert!(matches!(s, WorkerState::Done(CycleOutcome::Failed(CycleError::StoreRead))));
}

#[test]
fn queue_failure_and_malformed_messages_end_the_cycle() {
    let cfg = WorkerConfig::standard();
    let (_, a) = step(&cfg, receiving(&cfg), WorkerEvent::QueueFailed);
    assert!(matches!(a, WorkerAction::Finish(CycleOutcome::Failed(CycleError::QueueReceive))));
    let (_, a) = step(&cfg, receiving(&cfg), WorkerEvent::Malformed);
    assert!(matches!(a, WorkerAction::Finish(CycleOutcome::Failed(CycleError::Deserialization))));
    let nameless = Job::new(String::new(), "images".to_string());
    let (_, a) = step(&cfg, receiving(&cfg), WorkerEvent::Received(nameless));
    assert!(matches!(a, WorkerAction::Finish(CycleOutcome::Failed(CycleError::Deserialization))));
}

#[test]
fn undecodable_source_reports_decode_error() {
    let cfg = WorkerConfig::standard();
    let s = reading(&cfg, "notes.txt");
    let (s, _) = step(&cfg, s, WorkerEvent::Chunk(b"plain text".to_vec()));
    let (_, a) = step(&cfg, s, WorkerEvent::ReadFinished);
    assert!(matches!(a, WorkerAction::Finish(CycleOutcome::Failed(CycleError::Decode))));
}

#[test]
fn failed_thumbnail_write_is_reported() {
    let cfg = WorkerConfig::standard();
    let s = reading(&cfg, "dog.png");
    let (s, _) = step(&cfg, s, WorkerEvent::Chunk(png_bytes(40, 80)));
    let (s, a) = step(&cfg, s, WorkerEvent::ReadFinished);
    assert!(matches!(a, WorkerAction::WriteObject { .. }));
    let (_, a) = step(&cfg, s, WorkerEvent::WriteFailed);
    assert!(matches!(a, WorkerAction::Finish(CycleOutcome::Failed(CycleError::StoreWrite))));
}

#[test]
fn events_that_do_not_fit_leave_the_state() {
    let cfg = WorkerConfig::new(10, 10, 16);
    let (s, a) = step(&cfg, WorkerState::Idle, WorkerEvent::WriteSucceeded);
    assert!(matches!(a, WorkerAction::Continue));
    assert!(matches!(s, WorkerState::Idle));
    let (s, a) = step(&cfg, WorkerState::Receiving, WorkerEvent::Chunk(vec![1, 2]));
    assert!(matches!(a, WorkerAction::Continue));
    assert!(matches!(s, WorkerState::Receiving));
}

#[test]
fn thumbnail_fits_box_and_keeps_aspect_ratio() {
    let tall = make_thumbnail(&png_bytes(150, 300), 100, 100).unwrap();
    let img = image::load_from_memory(&tall).unwrap();
    assert_eq!((img.width(), img.height()), (50, 100));
    let small = make_thumbnail(&png_bytes(20, 10), 100, 100).unwrap();
    let img = image::load_from_memory(&small).unwrap();
    assert_eq!((img.width(), img.height()), (100, 50));
}

#[test]
fn thumbnail_of_garbage_is_a_decode_error() {
    assert_eq!(make_thumbnail(&[0u8, 1, 2, 3], 100, 100), Err(TransformError::Decode));
    assert_eq!(make_thumbnail(&[], 100, 100), Err(TransformError::Decode));
}

#[test]
fn derived_name_prefixes_source_name() {
    assert_eq!(derived_name("cat.png"), "resized_cat.png");
    assert_eq!(derived_name(""), "resized_");
    assert_eq!(derived_name(&derived_name("a")), "resized_resized_a");
    let job = Job::new("x.jpg".to_string(), "c".to_string());
    assert_eq!(job.derived_filename(), "resized_x.jpg");
}

#[test]
fn job_copies_compare_equal() {
    let job = Job::new("cat.png".to_string(), "images".to_string());
    let copy = job.duplicate();
    assert!(job.same_as(&copy));
    assert_eq!(copy.filename, "cat.png");
    assert_eq!(copy.image_container, "images");
    let other = Job::new("cat.png".to_string(), "other".to_string());
    assert!(!job.same_as(&other));
}

#[test]
fn standard_worker_config() {
    let cfg = WorkerConfig::standard();
    assert_eq!((cfg.max_width, cfg.max_height, cfg.chunk_size), (100, 100, 8192));
    assert_eq!(thumbnail_pipeline::job::content_type(), "image/jpeg");
}
