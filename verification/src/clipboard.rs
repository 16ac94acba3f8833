//! Clipboard change detection. The watcher remembers the fingerprint of the
//! last text and of the last image it reported, and reports a reading only
//! when its fingerprint differs from the remembered one.
//!
//! The caller reads the clipboard once per poll interval, in the order that
//! `poll_order` gives, hands each reading to the watcher and sends out the
//! notifications it returns.

use crate::hashing::{compute_hash, fingerprint, lemma_fingerprint_shape};
use crate::image_store::{StorageError, StoredImageAsset};
use crate::text::same_text;
use vstd::prelude::*;
use vstd::utf8::encode_utf8;

verus! {

/// An image payload larger than this many bytes is never stored or reported.
pub const MAX_IMAGE_BYTES: usize = 10 * 1024 * 1024;

/// Time between two polls of the clipboard, in milliseconds.
pub const POLL_INTERVAL_MS: u64 = 300;

/// The two kinds of clipboard content that are tracked.
#[derive(Debug, Clone, Copy, PartialEq, Eq, Structural)]
pub enum ContentKind {
    Text,
    Image,
}

impl ContentKind {
    /// The kind's name in notifications and history records.
    pub open spec fn label_spec(self) -> Seq<char> {
        match self {
            ContentKind::Text => "text"@,
            ContentKind::Image => "image"@,
        }
    }

    /// The name of the event that announces a change of this kind.
    pub open spec fn event_name_spec(self) -> Seq<char> {
        match self {
            ContentKind::Text => "clipboard-text"@,
            ContentKind::Image => "clipboard-image"@,
        }
    }

    /// The kind that `label` names, if it names one.
    pub open spec fn parse_spec(label: Seq<char>) -> Option<ContentKind> {
        if label == "text"@ {
            Some(ContentKind::Text)
        } else if label == "image"@ {
            Some(ContentKind::Image)
        } else {
            None
        }
    }

    /// The kind that `label` names, if it names one.
    pub fn parse(label: &str) -> (kind: Option<ContentKind>)
        ensures
            kind == Self::parse_spec(label@),
    {
        if same_text(label, "text") {
            Some(ContentKind::Text)
        } else if same_text(label, "image") {
            Some(ContentKind::Image)
        } else {
            None
        }
    }

    /// The kind's name in notifications and history records.
    pub fn label(self) -> (label: String)
        ensures
            label@ == self.label_spec(),
    {
        match self {
            ContentKind::Text => "text".to_string(),
            ContentKind::Image => "image".to_string(),
        }
    }

    /// The name of the event that announces a change of this kind.
    pub fn event_name(self) -> (name: String)
        ensures
            name@ == self.event_name_spec(),
    {
        match self {
            ContentKind::Text => "clipboard-text".to_string(),
            ContentKind::Image => "clipboard-image".to_string(),
        }
    }
}

/// The order in which one poll looks at the clipboard: text before image.
pub open spec fn poll_order_spec() -> Seq<ContentKind> {
    seq![ContentKind::Text, ContentKind::Image]
}

/// The kinds to read in one poll, in order. The caller reads each kind in
/// turn, hands the reading to the watcher and finishes with what comes of
/// it before it reads the next kind.
pub fn poll_order() -> (kinds: Vec<ContentKind>)
    ensures
        kinds@ == poll_order_spec(),
{
    let kinds = vec![ContentKind::Text, ContentKind::Image];
    assert(kinds@ =~= poll_order_spec());
    kinds
}

/// The notification sent when the clipboard holds something new.
#[derive(Debug, Clone)]
pub struct ClipboardPayload {
    pub content_type: String,
    pub content_hash: String,
    pub text_content: Option<String>,
    pub image_path: Option<String>,
    pub thumbnail_path: Option<String>,
    pub file_size: i64,
}

/// What a notification holds, with every text as a character sequence.
pub struct PayloadView {
    pub content_type: Seq<char>,
    pub content_hash: Seq<char>,
    pub text_content: Option<Seq<char>>,
    pub image_path: Option<Seq<char>>,
    pub thumbnail_path: Option<Seq<char>>,
    pub file_size: int,
}

/// The characters of an optional text.
pub open spec fn optional_text(text: Option<String>) -> Option<Seq<char>> {
    match text {
        Some(text) => Some(text@),
        None => None,
    }
}

impl View for ClipboardPayload {
    type V = PayloadView;

    open spec fn view(&self) -> PayloadView {
        PayloadView {
            content_type: self.content_type@,
            content_hash: self.content_hash@,
            text_content: optional_text(self.text_content),
            image_path: optional_text(self.image_path),
            thumbnail_path: optional_text(self.thumbnail_path),
            file_size: self.file_size as int,
        }
    }
}

/// The notification for a new text: the text itself and its fingerprint, no
/// files, size zero.
pub open spec fn text_payload(text: Seq<char>) -> PayloadView {
    PayloadView {
        content_type: ContentKind::Text.label_spec(),
        content_hash: fingerprint(encode_utf8(text)),
        text_content: Some(text),
        image_path: None,
        thumbnail_path: None,
        file_size: 0,
    }
}

/// The notification for a stored image: its fingerprint, its size in bytes
/// and the places of its two files, no text.
pub open spec fn image_payload(
    content_hash: Seq<char>,
    file_size: int,
    full_path: Seq<char>,
    thumbnail_path: Seq<char>,
) -> PayloadView {
    PayloadView {
        content_type: ContentKind::Image.label_spec(),
        content_hash,
        text_content: None,
        image_path: Some(full_path),
        thumbnail_path: Some(thumbnail_path),
        file_size,
    }
}

/// An image that the watcher accepted and that waits to be stored.
#[derive(Debug)]
pub struct PendingImage {
    pub content_hash: String,
    pub file_size: i64,
}

/// The last fingerprints that a watcher reported, one for each kind. An
/// empty sequence stands for "nothing yet".
pub struct WatcherView {
    pub last_text: Seq<char>,
    pub last_image: Seq<char>,
}

impl WatcherView {
    /// A watcher that has reported nothing.
    pub open spec fn fresh() -> WatcherView {
        WatcherView { last_text: Seq::empty(), last_image: Seq::empty() }
    }

    /// Whether a text reading is reported: it is not empty and its
    /// fingerprint is not the remembered one.
    pub open spec fn text_is_news(self, text: Seq<char>) -> bool {
        text.len() > 0 && fingerprint(encode_utf8(text)) != self.last_text
    }

    /// The state after a text reading.
    pub open spec fn after_text(self, text: Seq<char>) -> WatcherView {
        if self.text_is_news(text) {
            WatcherView { last_text: fingerprint(encode_utf8(text)), last_image: self.last_image }
        } else {
            self
        }
    }

    /// Whether an image reading is accepted: its fingerprint is not the
    /// remembered one and it is not larger than `MAX_IMAGE_BYTES`.
    pub open spec fn image_is_news(self, bytes: Seq<u8>) -> bool {
        fingerprint(bytes) != self.last_image && bytes.len() <= MAX_IMAGE_BYTES
    }

    /// The state after an image reading.
    pub open spec fn after_image(self, bytes: Seq<u8>) -> WatcherView {
        if self.image_is_news(bytes) {
            WatcherView { last_text: self.last_text, last_image: fingerprint(bytes) }
        } else {
            self
        }
    }
}

/// The change detector of the clipboard history.
pub struct ClipboardWatcher {
    last_text_hash: String,
    last_image_hash: String,
}

impl View for ClipboardWatcher {
    type V = WatcherView;

    closed spec fn view(&self) -> WatcherView {
        WatcherView { last_text: self.last_text_hash@, last_image: self.last_image_hash@ }
    }
}

impl ClipboardWatcher {
    /// A watcher that has reported nothing yet.
    pub fn new() -> (watcher: Self)
        ensures
            watcher@ == WatcherView::fresh(),
    {
        ClipboardWatcher { last_text_hash: String::new(), last_image_hash: String::new() }
    }

    /// The fingerprint of the last text reported, empty before the first.
    pub fn last_text_hash(&self) -> (hash: &String)
        ensures
            hash@ == self@.last_text,
    {
        &self.last_text_hash
    }

    /// The fingerprint of the last image accepted, empty before the first.
    pub fn last_image_hash(&self) -> (hash: &String)
        ensures
            hash@ == self@.last_image,
    {
        &self.last_image_hash
    }

    /// The text branch of one poll. `reading` is the clipboard's text, `None`
    /// when there is none or it could not be read. A text that is news is
    /// remembered and returned as a notification; anything else changes
    /// nothing.
    pub fn observe_text(&mut self, reading: Option<&str>) -> (notification: Option<
        ClipboardPayload,
    >)
        ensures
            match reading {
                Some(text) => {
                    &&& final(self)@ == old(self)@.after_text(text@)
                    &&& old(self)@.text_is_news(text@) ==> (notification matches Some(payload)
                        && payload@ == text_payload(text@))
                    &&& !old(self)@.text_is_news(text@) ==> notification is None
                },
                None => final(self)@ == old(self)@ && notification is None,
            },
    {
        let text = match reading {
            Some(text) => text,
            None => { return None; },
        };
        if text.is_empty() {
            return None;
        }
        let hash = compute_hash(text.as_bytes());
        if hash == self.last_text_hash {
            return None;
        }
        self.last_text_hash = hash.clone();
        Some(
            ClipboardPayload {
                content_type: ContentKind::Text.label(),
                content_hash: hash,
                text_content: Some(text.to_string()),
                image_path: None,
                thumbnail_path: None,
                file_size: 0,
            },
        )
    }

    /// The image branch of one poll. `reading` is the clipboard image's raw
    /// bytes, `None` when there is no image or it could not be read. An image
    /// that is news is remembered and handed back for storing. An image over
    /// the size limit is passed over without being remembered.
    pub fn observe_image(&mut self, reading: Option<&[u8]>) -> (pending: Option<PendingImage>)
        ensures
            match reading {
                Some(bytes) => {
                    &&& final(self)@ == old(self)@.after_image(bytes@)
                    &&& old(self)@.image_is_news(bytes@) ==> (pending matches Some(image)
                        && image.content_hash@ == fingerprint(bytes@) && image.file_size
                        == bytes@.len())
                    &&& !old(self)@.image_is_news(bytes@) ==> pending is None
                },
                None => final(self)@ == old(self)@ && pending is None,
            },
    {
        let bytes = match reading {
            Some(bytes) => bytes,
            None => { return None; },
        };
        let hash = compute_hash(bytes);
        if hash == self.last_image_hash {
            return None;
        }
        if bytes.len() > MAX_IMAGE_BYTES {
            return None;
        }
        self.last_image_hash = hash.clone();
        Some(PendingImage { content_hash: hash, file_size: bytes.len() as i64 })
    }
}

/// The notification for an accepted image once storing it has ended: one
/// that names the two files where storing succeeded, none where it failed.
pub fn image_notification(
    pending: PendingImage,
    stored: Result<StoredImageAsset, StorageError>,
) -> (notification: Option<ClipboardPayload>)
    ensures
        match stored {
            Ok(asset) => notification matches Some(payload) && payload@ == image_payload(
                pending.content_hash@,
                pending.file_size as int,
                asset.full_path@,
                asset.thumbnail_path@,
            ),
            Err(_) => notification is None,
        },
{
    match stored {
        Ok(asset) => Some(
            ClipboardPayload {
                content_type: ContentKind::Image.label(),
                content_hash: pending.content_hash,
                text_content: None,
                image_path: Some(asset.full_path),
                thumbnail_path: Some(asset.thumbnail_path),
                file_size: pending.file_size,
            },
        ),
        Err(_) => None,
    }
}

/// A kind's label names that kind and no other.
pub proof fn lemma_label_round_trip(kind: ContentKind)
    ensures
        ContentKind::parse_spec(kind.label_spec()) == Some(kind),
{
    reveal_strlit("text");
    reveal_strlit("image");
    assert("text"@.len() != "image"@.len());
}

/// The same text read twice in a row is reported at most once: whatever the
/// watcher remembered before, the second reading is no news and changes
/// nothing.
pub proof fn lemma_repeated_text_is_silent(state: WatcherView, text: Seq<char>)
    ensures
        !state.after_text(text).text_is_news(text),
        state.after_text(text).after_text(text) == state.after_text(text),
{
}

/// A watcher that has reported nothing reports every text that is not empty.
pub proof fn lemma_first_text_is_news(text: Seq<char>)
    requires
        text.len() > 0,
    ensures
        WatcherView::fresh().text_is_news(text),
{
    lemma_fingerprint_shape(encode_utf8(text));
}

/// A watcher that has reported nothing and reads the same text twice in a
/// row reports it exactly once: at the first reading, not at the second.
pub proof fn lemma_same_text_twice_reports_once(text: Seq<char>)
    requires
        text.len() > 0,
    ensures
        WatcherView::fresh().text_is_news(text),
        !WatcherView::fresh().after_text(text).text_is_news(text),
{
    lemma_first_text_is_news(text);
    lemma_repeated_text_is_silent(WatcherView::fresh(), text);
}

/// The same image read twice in a row is accepted at most once.
pub proof fn lemma_repeated_image_is_silent(state: WatcherView, bytes: Seq<u8>)
    ensures
        !state.after_image(bytes).image_is_news(bytes),
        state.after_image(bytes).after_image(bytes) == state.after_image(bytes),
{
}

/// The size gate: an image over the limit is never accepted and leaves the
/// remembered fingerprints as they were; an image of exactly the limit, or
/// smaller, is accepted whenever its fingerprint is new, as it always is for
/// a watcher that has reported nothing.
pub proof fn lemma_size_gate(state: WatcherView, bytes: Seq<u8>)
    ensures
        bytes.len() > MAX_IMAGE_BYTES ==> !state.image_is_news(bytes) && state.after_image(bytes)
            == state,
        bytes.len() <= MAX_IMAGE_BYTES ==> (state.image_is_news(bytes) <==> fingerprint(bytes)
            != state.last_image),
        bytes.len() <= MAX_IMAGE_BYTES ==> WatcherView::fresh().image_is_news(bytes),
{
    lemma_fingerprint_shape(bytes);
}

/// A reading of one kind never touches what is remembered of the other.
pub proof fn lemma_kinds_are_independent(state: WatcherView, text: Seq<char>, bytes: Seq<u8>)
    ensures
        state.after_text(text).last_image == state.last_image,
        state.after_image(bytes).last_text == state.last_text,
{
}

} // verus!
