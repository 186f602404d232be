//! The clipboard: what counts as a change worth telling, and how a change
//! travels.

use vstd::prelude::*;
use std::time::Duration;
use crate::message::{Message, MessageView};

verus! {

/// What the clipboard holds after a change.
#[derive(Debug, Clone, PartialEq, Eq)]
pub enum ClipboardContent {
    Text(String),
    Image { width: usize, height: usize, data: Vec<u8> },
}

/// A `ClipboardContent` as a mathematical value.
pub enum ClipboardContentView {
    Text(Seq<char>),
    Image { width: usize, height: usize, data: Seq<u8> },
}

impl View for ClipboardContent {
    type V = ClipboardContentView;

    open spec fn view(&self) -> ClipboardContentView {
        match *self {
            ClipboardContent::Text(text) => ClipboardContentView::Text(text@),
            ClipboardContent::Image { width, height, data } => ClipboardContentView::Image {
                width,
                height,
                data: data@,
            },
        }
    }
}

/// The message that carries `content`. The width and the height of an
/// image keep their low 32 bits.
pub open spec fn content_message(content: ClipboardContentView) -> MessageView {
    match content {
        ClipboardContentView::Text(text) => MessageView::ClipboardText { text },
        ClipboardContentView::Image { width, height, data } => MessageView::ClipboardImage {
            width: width as u32,
            height: height as u32,
            data,
        },
    }
}

impl ClipboardContent {
    /// The message that carries this content to the other side.
    pub fn into_message(self) -> (message: Message)
        ensures
            message@ == content_message(self@),
    {
        match self {
            ClipboardContent::Text(text) => Message::ClipboardText { text },
            ClipboardContent::Image { width, height, data } => Message::ClipboardImage {
                width: #[verifier::truncate]
                (width as u32),
                height: #[verifier::truncate]
                (height as u32),
                data,
            },
        }
    }
}

/// The time between two reads of the clipboard unless told otherwise, in
/// milliseconds.
pub const DEFAULT_POLL_MILLIS: u64 = 500;

/// What a watcher tells when it has told `last` before and now reads
/// `text`: the text, if it is not empty and not what was told last.
pub open spec fn changed_text(last: Seq<char>, text: Seq<char>) -> Option<Seq<char>> {
    if text != last && text.len() > 0 {
        Some(text)
    } else {
        None
    }
}

/// Watches the clipboard by reading it again and again, and tells each
/// change of its text once.
#[derive(Debug)]
pub struct ClipboardWatcher {
    poll_interval: Duration,
    last_text: String,
}

impl ClipboardWatcher {
    /// A watcher that reads the clipboard every `poll_interval` and has
    /// told nothing yet.
    pub fn new(poll_interval: Duration) -> (watcher: Self)
        ensures
            watcher.interval() == poll_interval,
            watcher.last_told() == Seq::<char>::empty(),
    {
        ClipboardWatcher { poll_interval, last_text: String::new() }
    }

    /// The time between two reads, as a mathematical value.
    pub closed spec fn interval(&self) -> Duration {
        self.poll_interval
    }

    /// The text that the watcher told last, empty if it told none.
    pub closed spec fn last_told(&self) -> Seq<char> {
        self.last_text@
    }

    /// The time between two reads.
    pub fn poll_interval(&self) -> (interval: Duration)
        ensures
            interval == self.interval(),
    {
        self.poll_interval
    }

    /// Takes what a read of the clipboard gave, `None` where the read
    /// failed, and returns the change to tell, if there is one. A failed
    /// read tells nothing and forgets nothing.
    pub fn observe(&mut self, read: Option<String>) -> (change: Option<ClipboardContent>)
        ensures
            final(self).interval() == old(self).interval(),
            match read {
                Some(text) => match changed_text(old(self).last_told(), text@) {
                    Some(told) => {
                        &&& change matches Some(c)
                        &&& c@ == ClipboardContentView::Text(told)
                        &&& final(self).last_told() == told
                    },
                    None => change is None && final(self).last_told() == old(self).last_told(),
                },
                None => change is None && final(self).last_told() == old(self).last_told(),
            },
    {
        match read {
            Some(text) => {
                if text != self.last_text && !text.as_str().is_empty() {
                    self.last_text = text.clone();
                    Some(ClipboardContent::Text(text))
                } else {
                    None
                }
            },
            None => None,
        }
    }
}

/// Reading the same text twice in a row tells it at most once.
pub proof fn lemma_same_text_told_once(last: Seq<char>, text: Seq<char>)
    ensures
        changed_text(
            match changed_text(last, text) {
                Some(told) => told,
                None => last,
            },
            text,
        ) is None,
{
}

} // verus!
