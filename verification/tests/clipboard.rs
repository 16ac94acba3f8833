use super_paste::clipboard::{
    image_notification, poll_order, ClipboardWatcher, ContentKind, PendingImage, MAX_IMAGE_BYTES,
    POLL_INTERVAL_MS,
};
use super_paste::hashing::compute_hash;
use super_paste::image_store::{StorageError, StoredImageAsset};

#[test]
fn fresh_watcher_remembers_nothing() {
    let watcher = ClipboardWatcher::new();
    assert_eq!(watcher.last_text_hash(), "");
    assert_eq!(watcher.last_image_hash(), "");
}

#[test]
fn constants_have_their_documented_values() {
    assert_eq!(MAX_IMAGE_BYTES, 10_485_760);
    assert_eq!(POLL_INTERVAL_MS, 300);
}

#[test]
fn text_hello_then_hello_then_world() {
    let mut watcher = ClipboardWatcher::new();

    let first = watcher.observe_text(Some("hello")).expect("first hello is news");
    assert_eq!(first.content_type, "text");
    assert_eq!(first.content_hash, compute_hash(b"hello"));
    assert_eq!(
        first.content_hash,
        "2cf24dba5fb0a30e26e83b2ac5b9e29e1b161e5c1fa7425e73043362938b9824"
    );
    assert_eq!(first.text_content.as_deref(), Some("hello"));
    assert_eq!(first.image_path, None);
    assert_eq!(first.thumbnail_path, None);
    assert_eq!(first.file_size, 0);

    assert!(watcher.observe_text(Some("hello")).is_none());

    let second = watcher.observe_text(Some("world")).expect("world is news");
    assert_eq!(second.content_type, "text");
    assert_eq!(second.text_content.as_deref(), Some("world"));
    assert_eq!(second.content_hash, compute_hash(b"world"));
    assert_ne!(second.content_hash, first.content_hash);
}

#[test]
fn same_text_twice_is_reported_once() {
    let mut watcher = ClipboardWatcher::new();
    let mut reported = 0;
    for _ in 0..2 {
        if watcher.observe_text(Some("the same text")).is_some() {
            reported += 1;
        }
    }
    assert_eq!(reported, 1);
    assert_eq!(watcher.last_text_hash(), &compute_hash(b"the same text"));
}

#[test]
fn text_that_comes_back_is_reported_again() {
    let mut watcher = ClipboardWatcher::new();
    assert!(watcher.observe_text(Some("a")).is_some());
    assert!(watcher.observe_text(Some("b")).is_some());
    assert!(watcher.observe_text(Some("a")).is_some());
}

#[test]
fn empty_text_and_missing_text_change_nothing() {
    let mut watcher = ClipboardWatcher::new();
    assert!(watcher.observe_text(Some("")).is_none());
    assert!(watcher.observe_text(None).is_none());
    assert_eq!(watcher.last_text_hash(), "");

    assert!(watcher.observe_text(Some("kept")).is_some());
    let remembered = watcher.last_text_hash().clone();
    assert!(watcher.observe_text(Some("")).is_none());
    assert!(watcher.observe_text(None).is_none());
    assert_eq!(watcher.last_text_hash(), &remembered);
}

#[test]
fn text_fingerprint_is_over_utf8_bytes() {
    let mut watcher = ClipboardWatcher::new();
    let payload = watcher.observe_text(Some("héllo ✓")).unwrap();
    assert_eq!(payload.content_hash, compute_hash("héllo ✓".as_bytes()));
    assert_eq!(payload.text_content.as_deref(), Some("héllo ✓"));
}

#[test]
fn image_is_accepted_once() {
    let mut watcher = ClipboardWatcher::new();
    let bytes = vec![7u8; 50 * 50 * 4];
    let pending = watcher.observe_image(Some(&bytes)).expect("first image is news");
    assert_eq!(pending.content_hash, compute_hash(&bytes));
    assert_eq!(pending.file_size, 10_000);
    assert_eq!(watcher.last_image_hash(), &pending.content_hash);
    assert!(watcher.observe_image(Some(&bytes)).is_none());
    assert!(watcher.observe_image(None).is_none());
    assert_eq!(watcher.last_image_hash(), &pending.content_hash);
}

#[test]
fn image_of_exactly_the_limit_is_accepted() {
    let mut watcher = ClipboardWatcher::new();
    let bytes = vec![1u8; 10 * 1024 * 1024];
    let pending = watcher.observe_image(Some(&bytes)).expect("10 MiB is within the limit");
    assert_eq!(pending.file_size, 10 * 1024 * 1024);
    assert_eq!(watcher.last_image_hash(), &compute_hash(&bytes));
}

#[test]
fn image_one_byte_over_the_limit_is_passed_over() {
    let mut watcher = ClipboardWatcher::new();
    let bytes = vec![1u8; 10 * 1024 * 1024 + 1];
    assert!(watcher.observe_image(Some(&bytes)).is_none());
    // Not remembered: the fingerprint stays as it was.
    assert_eq!(watcher.last_image_hash(), "");
    // And it is passed over again on every later poll.
    assert!(watcher.observe_image(Some(&bytes)).is_none());
    assert_eq!(watcher.last_image_hash(), "");
}

#[test]
fn oversized_image_does_not_hide_a_smaller_one() {
    let mut watcher = ClipboardWatcher::new();
    let small = vec![2u8; 16];
    let large = vec![2u8; 10 * 1024 * 1024 + 1];
    assert!(watcher.observe_image(Some(&small)).is_some());
    let remembered = watcher.last_image_hash().clone();
    assert!(watcher.observe_image(Some(&large)).is_none());
    assert_eq!(watcher.last_image_hash(), &remembered);
    assert!(watcher.observe_image(Some(&small)).is_none());
}

#[test]
fn text_and_image_are_tracked_apart() {
    let mut watcher = ClipboardWatcher::new();
    let bytes = b"hello".to_vec();
    assert!(watcher.observe_text(Some("hello")).is_some());
    assert_eq!(watcher.last_image_hash(), "");
    // Same bytes, other kind: still news.
    assert!(watcher.observe_image(Some(&bytes)).is_some());
    assert_eq!(watcher.last_text_hash(), watcher.last_image_hash());
    assert!(watcher.observe_text(Some("hello")).is_none());
}

#[test]
fn stored_image_is_announced() {
    let pending = PendingImage { content_hash: "abc123".to_string(), file_size: 10_000 };
    let asset = StoredImageAsset {
        full_path: "/data/images/a.png".to_string(),
        thumbnail_path: "/data/images/b_thumb.png".to_string(),
    };
    let payload = image_notification(pending, Ok(asset)).expect("stored image is announced");
    assert_eq!(payload.content_type, "image");
    assert_eq!(payload.content_hash, "abc123");
    assert_eq!(payload.text_content, None);
    assert_eq!(payload.image_path.as_deref(), Some("/data/images/a.png"));
    assert_eq!(payload.thumbnail_path.as_deref(), Some("/data/images/b_thumb.png"));
    assert_eq!(payload.file_size, 10_000);
}

#[test]
fn failed_storing_is_not_announced_and_not_retried() {
    let mut watcher = ClipboardWatcher::new();
    let bytes = vec![9u8; 64];
    let pending = watcher.observe_image(Some(&bytes)).unwrap();
    let outcome = image_notification(pending, Err(StorageError::Write("disk full".to_string())));
    assert!(outcome.is_none());
    // The fingerprint was remembered before storing: no second attempt.
    assert!(watcher.observe_image(Some(&bytes)).is_none());
}

#[test]
fn content_kind_labels_and_events() {
    assert_eq!(ContentKind::Text.label(), "text");
    assert_eq!(ContentKind::Image.label(), "image");
    assert_eq!(ContentKind::Text.event_name(), "clipboard-text");
    assert_eq!(ContentKind::Image.event_name(), "clipboard-image");
    assert_eq!(ContentKind::parse("text"), Some(ContentKind::Text));
    assert_eq!(ContentKind::parse("image"), Some(ContentKind::Image));
    assert_eq!(ContentKind::parse("Text"), None);
    assert_eq!(ContentKind::parse(""), None);
    assert_eq!(ContentKind::parse("file"), None);
}

#[test]
fn a_poll_reads_text_before_image() {
    assert_eq!(poll_order(), vec![ContentKind::Text, ContentKind::Image]);
}

#[test]
fn a_poll_in_order_reports_text_then_image() {
    let mut watcher = ClipboardWatcher::new();
    let image = vec![3u8; 4 * 4 * 4];
    let mut reported = Vec::new();
    for kind in poll_order() {
        match kind {
            ContentKind::Text => {
                if let Some(payload) = watcher.observe_text(Some("both at once")) {
                    reported.push(payload.content_type);
                }
            }
            ContentKind::Image => {
                if watcher.observe_image(Some(&image)).is_some() {
                    reported.push(kind.label());
                }
            }
        }
    }
    assert_eq!(reported, vec!["text".to_string(), "image".to_string()]);
}
