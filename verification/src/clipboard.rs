//! Clipboard read policy.
//!
//! Reading the clipboard can fail transiently while the owning application
//! still holds it; such a read is retried a bounded number of times with a
//! fixed spacing.  Any other failure is treated as absence of data, and a
//! buffer that was handed over but cannot be decoded fails the single
//! attempt without retry.  The operating-system calls themselves happen
//! outside the library; these functions take the outcome of each attempt and
//! decide the gateway's result.

use crate::dib::{normalize_dib, normalized_image};
use crate::util::{trim, trimmed};
use vstd::prelude::*;
use vstd::string::StringExecFns;
use vstd::utf8::encode_utf8;

verus! {

/// How many times a transiently busy clipboard is tried.
pub const CLIPBOARD_ATTEMPTS: u32 = 3;

/// Milliseconds between two attempts.
pub const RETRY_SPACING_MS: u64 = 100;

/// An encoded raster image and its mime type.
pub struct ImageData {
    pub bytes: Vec<u8>,
    pub mime_type: String,
}

/// What one trigger captured from the clipboard.  Produced fresh on every
/// trigger; an image takes precedence, text counts only when it has
/// something beyond whitespace.
pub enum ClipboardPayload {
    Text(String),
    Image(ImageData),
    Empty,
}

/// The text is nothing but whitespace.
pub open spec fn text_is_blank(t: Seq<char>) -> bool {
    trimmed(encode_utf8(t)).len() == 0
}

/// Classify what the two clipboard reads produced into one payload.
pub fn payload_from(image: Option<ImageData>, text: Option<String>) -> (r: ClipboardPayload)
    ensures
        match image {
            Some(d) => r == ClipboardPayload::Image(d),
            None => match text {
                Some(t) => if text_is_blank(t@) {
                    r is Empty
                } else {
                    r == ClipboardPayload::Text(t)
                },
                None => r is Empty,
            },
        },
{
    match image {
        Some(d) => ClipboardPayload::Image(d),
        None => match text {
            Some(t) => {
                let trimmed_text = trim(t.as_str().as_bytes());
                if trimmed_text.len() == 0 {
                    ClipboardPayload::Empty
                } else {
                    ClipboardPayload::Text(t)
                }
            },
            None => ClipboardPayload::Empty,
        },
    }
}

/// What one attempt to fetch the raw clipboard bitmap returned.
pub enum FetchOutcome {
    /// The clipboard handed over a buffer.
    Data(Vec<u8>),
    /// The clipboard is still held by its owner; transient.
    Busy,
    /// Any other failure; not retried.
    Failed,
}

/// What one attempt to fetch the clipboard text returned.
pub enum TextFetchOutcome {
    Text(String),
    Busy,
    Failed,
}

/// An intermediate result with `extra` further attempts already consumed.
pub open spec fn add_attempts<T>(p: (Option<T>, nat), extra: nat) -> (Option<T>, nat) {
    (p.0, p.1 + extra)
}

/// The image-read policy over a sequence of attempt outcomes: a handed-over
/// buffer decides the read on the spot (normalization failure is not
/// retried), a busy clipboard is retried while attempts remain, anything
/// else gives up.  The second component counts the attempts consumed.
pub open spec fn image_read_spec(outcomes: Seq<FetchOutcome>, attempts: nat) -> (
    Option<Seq<u8>>,
    nat,
)
    decreases attempts,
{
    if attempts == 0 || outcomes.len() == 0 {
        (None, 0)
    } else {
        match outcomes[0] {
            FetchOutcome::Data(buf) => (normalized_image(buf@), 1),
            FetchOutcome::Busy => if attempts > 1 {
                add_attempts(image_read_spec(outcomes.drop_first(), (attempts - 1) as nat), 1)
            } else {
                (None, 1)
            },
            FetchOutcome::Failed => (None, 1),
        }
    }
}

/// The text-read policy: same retry rule, and the handed-over text is the
/// result as it is.
pub open spec fn text_read_spec(outcomes: Seq<TextFetchOutcome>, attempts: nat) -> (
    Option<Seq<char>>,
    nat,
)
    decreases attempts,
{
    if attempts == 0 || outcomes.len() == 0 {
        (None, 0)
    } else {
        match outcomes[0] {
            TextFetchOutcome::Text(s) => (Some(s@), 1),
            TextFetchOutcome::Busy => if attempts > 1 {
                add_attempts(text_read_spec(outcomes.drop_first(), (attempts - 1) as nat), 1)
            } else {
                (None, 1)
            },
            TextFetchOutcome::Failed => (None, 1),
        }
    }
}

/// Read the clipboard image given the outcome of each fetch attempt, in
/// order.  Returns the normalized image, if any, and how many attempts were
/// consumed: a buffer or a hard failure ends the read at once, only a busy
/// clipboard is retried, and at most [`CLIPBOARD_ATTEMPTS`] outcomes are
/// looked at.
pub fn read_image(outcomes: &Vec<FetchOutcome>) -> (r: (Option<ImageData>, usize))
    ensures
        r.1 == image_read_spec(outcomes@, CLIPBOARD_ATTEMPTS as nat).1,
        match r.0 {
            Some(d) => {
                &&& image_read_spec(outcomes@, CLIPBOARD_ATTEMPTS as nat).0 == Some(d.bytes@)
                &&& d.mime_type@ == "image/png"@
            },
            None => image_read_spec(outcomes@, CLIPBOARD_ATTEMPTS as nat).0 is None,
        },
{
    let mut i: usize = 0;
    proof {
        assert(outcomes@.skip(0) =~= outcomes@);
    }
    while i < 3 && i < outcomes.len()
        invariant
            0 <= i <= 3,
            i <= outcomes@.len(),
            forall|j: int| 0 <= j < i ==> outcomes@[j] is Busy,
            image_read_spec(outcomes@, 3nat) == add_attempts(
                image_read_spec(outcomes@.skip(i as int), (3 - i) as nat),
                i as nat,
            ),
        decreases 3 - i,
    {
        let ghost rest = outcomes@.skip(i as int);
        proof {
            assert(rest[0] == outcomes@[i as int]);
            assert(rest.drop_first() =~= outcomes@.skip(i + 1));
        }
        match &outcomes[i] {
            FetchOutcome::Data(buf) => {
                let png = normalize_dib(buf.as_slice());
                match png {
                    Some(p) => {
                        return (
                            Some(ImageData { bytes: p, mime_type: String::from_str("image/png") }),
                            i + 1,
                        );
                    },
                    None => {
                        return (None, i + 1);
                    },
                }
            },
            FetchOutcome::Busy => {
                i = i + 1;
            },
            FetchOutcome::Failed => {
                return (None, i + 1);
            },
        }
    }
    proof {
        if i < 3 {
            assert(outcomes@.skip(i as int).len() == 0);
        }
    }
    (None, i)
}

/// Read the clipboard text given the outcome of each fetch attempt, in
/// order; same policy as [`read_image`].
pub fn read_text(outcomes: &Vec<TextFetchOutcome>) -> (r: (Option<String>, usize))
    ensures
        r.1 == text_read_spec(outcomes@, CLIPBOARD_ATTEMPTS as nat).1,
        match r.0 {
            Some(s) => text_read_spec(outcomes@, CLIPBOARD_ATTEMPTS as nat).0 == Some(s@),
            None => text_read_spec(outcomes@, CLIPBOARD_ATTEMPTS as nat).0 is None,
        },
{
    let mut i: usize = 0;
    proof {
        assert(outcomes@.skip(0) =~= outcomes@);
    }
    while i < 3 && i < outcomes.len()
        invariant
            0 <= i <= 3,
            i <= outcomes@.len(),
            forall|j: int| 0 <= j < i ==> outcomes@[j] is Busy,
            text_read_spec(outcomes@, 3nat) == add_attempts(
                text_read_spec(outcomes@.skip(i as int), (3 - i) as nat),
                i as nat,
            ),
        decreases 3 - i,
    {
        let ghost rest = outcomes@.skip(i as int);
        proof {
            assert(rest[0] == outcomes@[i as int]);
            assert(rest.drop_first() =~= outcomes@.skip(i + 1));
        }
        match &outcomes[i] {
            TextFetchOutcome::Text(s) => {
                return (Some(s.clone()), i + 1);
            },
            TextFetchOutcome::Busy => {
                i = i + 1;
            },
            TextFetchOutcome::Failed => {
                return (None, i + 1);
            },
        }
    }
    proof {
        if i < 3 {
            assert(outcomes@.skip(i as int).len() == 0);
        }
    }
    (None, i)
}

} // verus!
