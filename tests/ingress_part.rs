use thumbnail_pipeline::ingress::{
    part_report, part_step, rejection_reply, within_ceiling, IngressAction, IngressConfig,
    IngressEvent, IngressState, PartError, PartStatus, RejectionKind, UploadPart,
};

fn config() -> IngressConfig {
    IngressConfig::standard("images".to_string())
}

fn part(filename: Option<&str>, payload: &[u8]) -> UploadPart {
    UploadPart::new("file".to_string(), filename.map(|f| f.to_string()), payload.to_vec())
}

fn writing(cfg: &IngressConfig, p: &UploadPart) -> IngressState {
    let (s, a) = part_step(cfg, p, IngressState::Start, IngressEvent::Begin);
    match a {
        IngressAction::WriteObject { container, name, content_type, payload } => {
            assert_eq!(payload, p.payload);
            assert_eq!(container, "images");
            assert_eq!(Some(name.as_str()), p.filename.as_deref());
            assert_eq!(content_type, "image/jpeg");
        }
        other => panic!("unexpected action {:?}", other),
    }
    s
}

#[test]
fn stored_part_is_announced_once() {
    let cfg = config();
    let p = part(Some("cat.png"), &[137, 80, 78, 71]);
    let s = writing(&cfg, &p);
    let (s, a) = part_step(&cfg, &p, s, IngressEvent::WriteSucceeded);
    match a {
        IngressAction::PublishJob(job) => {
            assert_eq!(job.filename, "cat.png");
            assert_eq!(job.image_container, "images");
        }
        other => panic!("unexpected action {:?}", other),
    }
    let (s, a) = part_step(&cfg, &p, s, IngressEvent::WriteSucceeded);
    assert!(matches!(a, IngressAction::Continue));
    let (s, a) = part_step(&cfg, &p, s, IngressEvent::PublishSucceeded);
    assert!(matches!(a, IngressAction::Finish(PartStatus::Published)));
    let (_, a) = part_step(&cfg, &p, s, IngressEvent::WriteSucceeded);
    assert!(matches!(a, IngressAction::Continue));
}

#[test]
fn empty_part_is_skipped_and_reported_empty() {
    let cfg = config();
    let p = part(Some("empty.png"), &[]);
    let (s, a) = part_step(&cfg, &p, IngressState::Start, IngressEvent::Begin);
    assert!(matches!(a, IngressAction::Finish(PartStatus::Skipped)));
    let (_, a) = part_step(&cfg, &p, s, IngressEvent::WriteSucceeded);
    assert!(matches!(a, IngressAction::Continue));
    let r = part_report(&p, PartStatus::Skipped);
    assert_eq!(r.name, "file");
    assert_eq!(r.filename.as_deref(), Some("empty.png"));
    assert_eq!(r.content, "");
    assert_eq!(r.status, PartStatus::Skipped);
}

#[test]
fn part_without_filename_is_rejected() {
    let cfg = config();
    let p = part(None, b"data");
    let (_, a) = part_step(&cfg, &p, IngressState::Start, IngressEvent::Begin);
    assert!(matches!(a, IngressAction::Finish(PartStatus::Failed(PartError::MissingFilename))));
    let p = part(Some(""), b"data");
    let (_, a) = part_step(&cfg, &p, IngressState::Start, IngressEvent::Begin);
    assert!(matches!(a, IngressAction::Finish(PartStatus::Failed(PartError::MissingFilename))));
}

#[test]
fn failed_write_publishes_nothing() {
    let cfg = config();
    let p = part(Some("cat.png"), b"data");
    let s = writing(&cfg, &p);
    let (s, a) = part_step(&cfg, &p, s, IngressEvent::WriteFailed);
    assert!(matches!(a, IngressAction::Finish(PartStatus::Failed(PartError::StoreWrite))));
    let (_, a) = part_step(&cfg, &p, s, IngressEvent::PublishSucceeded);
    assert!(matches!(a, IngressAction::Continue));
}

#[test]
fn failed_publish_is_surfaced() {
    let cfg = config();
    let p = part(Some("cat.png"), b"data");
    let s = writing(&cfg, &p);
    let (s, _) = part_step(&cfg, &p, s, IngressEvent::WriteSucceeded);
    let (s, a) = part_step(&cfg, &p, s, IngressEvent::PublishFailed);
    assert!(matches!(a, IngressAction::Finish(PartStatus::Failed(PartError::QueuePublish))));
    assert!(matches!(s, IngressState::Done(PartStatus::Failed(PartError::QueuePublish))));
}

#[test]
fn ceiling_counts_all_parts() {
    let cfg = IngressConfig::new("images".to_string(), 10);
    assert!(within_ceiling(&cfg, &vec![]));
    assert!(within_ceiling(&cfg, &vec![part(Some("a"), &[0; 4]), part(Some("b"), &[0; 6])]));
    assert!(!within_ceiling(&cfg, &vec![part(Some("a"), &[0; 4]), part(Some("b"), &[0; 7])]));
    assert!(!within_ceiling(&cfg, &vec![part(Some("a"), &[0; 11])]));
    let standard = config();
    assert_eq!(standard.max_payload, 5 * 1024 * 1024);
    assert!(within_ceiling(&standard, &vec![part(Some("a"), &vec![0; 5 * 1024 * 1024])]));
    assert!(!within_ceiling(&standard, &vec![part(Some("a"), &vec![0; 5 * 1024 * 1024 + 1])]));
}

#[test]
fn report_reads_payload_as_text() {
    let r = part_report(&part(Some("n.txt"), b"abc"), PartStatus::Published);
    assert_eq!(r.content, "abc");
    let r = part_report(&part(None, &[0x61, 0xff, 0x62]), PartStatus::Failed(PartError::MissingFilename));
    assert_eq!(r.content, "a\u{FFFD}b");
    assert_eq!(r.filename, None);
}

#[test]
fn rejections_map_to_status_and_message() {
    let (code, msg) = rejection_reply(RejectionKind::NotFound);
    assert_eq!((code, msg.as_str()), (404, "Not Found"));
    let (code, msg) = rejection_reply(RejectionKind::PayloadTooLarge);
    assert_eq!((code, msg.as_str()), (400, "Payload too large"));
    let (code, msg) = rejection_reply(RejectionKind::Other);
    assert_eq!((code, msg.as_str()), (500, "Internal Server Error"));
}
