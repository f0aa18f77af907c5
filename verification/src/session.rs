//! Driving one translation to completion.
//!
//! The network transfer itself happens outside the library; these functions
//! make every decision around it: which dialect decodes the stream, what a
//! non-success status means, what the stream must amount to before it counts
//! as a result, and what the no-network stub provider answers.

use crate::config::ProviderKind;
use crate::stream::{concat_all, str_views, Dialect, StreamDecoder};
use crate::util::{contains_bytes, contains_seq, dec_chars};
use vstd::prelude::*;
use vstd::string::StringExecFns;
use vstd::string::StringSliceAdditionalSpecFns;
use vstd::utf8::encode_utf8;

verus! {

/// Why a translation attempt failed.
pub enum TranslateError {
    /// The request never completed; the detail is what the transport
    /// reported.
    Network(String),
    /// The server answered with a non-success status; the detail carries the
    /// response body, clarified for a recognized provider condition.
    Provider { status: u16, detail: String },
    /// The stream completed without any content; distinct from success.
    EmptyResponse,
}

/// The recognized provider condition: the native provider rejecting an image
/// for a model that cannot take one.
pub open spec fn image_unsupported_condition(p: ProviderKind, status: u16, body: Seq<u8>) -> bool {
    p is OllamaNative && status == 500 && contains_seq(
        body,
        ("missing data required for image input").spec_bytes(),
    )
}

/// The clarified wording for the recognized condition.
pub open spec fn image_unsupported_detail(model: Seq<char>) -> Seq<char> {
    "The model '"@ + model + "' does not support images. Please use a vision model."@
}

/// A non-success status is between these bounds.
pub open spec fn status_is_success(status: u16) -> bool {
    200 <= status < 300
}

/// Decide what an HTTP status means for one request: success passes, any
/// other status carries the response body verbatim as detail, except the
/// recognized provider condition, which gets a clarified wording naming the
/// model.
pub fn classify_status(p: ProviderKind, model: &String, status: u16, body: &String) -> (r: Result<
    (),
    TranslateError,
>)
    ensures
        status_is_success(status) <==> r is Ok,
        !status_is_success(status) ==> match r {
            Err(TranslateError::Provider { status: s, detail }) => {
                &&& s == status
                &&& if image_unsupported_condition(p, status, encode_utf8(body@)) {
                    detail@ == image_unsupported_detail(model@)
                } else {
                    detail@ == body@
                }
            },
            _ => false,
        },
{
    if 200 <= status && status < 300 {
        return Ok(());
    }
    let special = match p {
        ProviderKind::OllamaNative => status == 500 && contains_bytes(
            body.as_str().as_bytes(),
            "missing data required for image input".as_bytes(),
        ),
        _ => false,
    };
    if special {
        let mut detail = String::from_str("The model '");
        detail.append(model.as_str());
        detail.append("' does not support images. Please use a vision model.");
        Err(TranslateError::Provider { status, detail })
    } else {
        Err(TranslateError::Provider { status, detail: body.clone() })
    }
}

impl TranslateError {
    /// The one-line wording surfaced to the user for this failure.
    pub open spec fn message_spec(&self) -> Seq<char> {
        match self {
            TranslateError::Network(d) => "Network error: "@ + d@,
            TranslateError::Provider { status, detail } => "API error "@ + dec_chars(
                *status as nat,
            ) + ": "@ + detail@,
            TranslateError::EmptyResponse => "Empty response from provider"@,
        }
    }

    /// Render the user-facing wording.
    pub fn message(&self) -> (r: String)
        ensures
            r@ == self.message_spec(),
    {
        match self {
            TranslateError::Network(d) => {
                let mut s = String::from_str("Network error: ");
                s.append(d.as_str());
                s
            },
            TranslateError::Provider { status, detail } => {
                let mut s = String::from_str("API error ");
                crate::util::append_dec(&mut s, *status as u64);
                s.append(": ");
                s.append(detail.as_str());
                s
            },
            TranslateError::EmptyResponse => String::from_str("Empty response from provider"),
        }
    }
}

/// The dialect a network provider streams in.
pub fn dialect_for(p: ProviderKind) -> (d: Dialect)
    requires
        !(p is StubFree),
    ensures
        p is OpenaiCompatible ==> d is Sse,
        p is OllamaNative ==> d is Ndjson,
{
    match p {
        ProviderKind::OpenaiCompatible => Dialect::Sse,
        ProviderKind::OllamaNative => Dialect::Ndjson,
        ProviderKind::StubFree => Dialect::Sse,
    }
}

/// Close a completed stream: the concatenation of every fragment is the
/// result, and a stream that completed without content is the distinct
/// empty-response failure, never success.
pub fn finish_stream(dec: StreamDecoder) -> (r: Result<String, TranslateError>)
    requires
        dec.wf(),
    ensures
        match r {
            Ok(t) => t@ == concat_all(dec.fragments()) && t@.len() > 0,
            Err(e) => e is EmptyResponse && concat_all(dec.fragments()).len() == 0,
        },
{
    let text = dec.into_text();
    if text.as_str().is_empty() {
        Err(TranslateError::EmptyResponse)
    } else {
        Ok(text)
    }
}

/// What the no-network stub provider answers: the input tagged with the
/// target language.
pub open spec fn stub_translation(input: Seq<char>, lang: Seq<char>) -> Seq<char> {
    "["@ + lang + "] "@ + input
}

/// Run the stub provider: no network, one fragment carrying the whole
/// result, delivered before the call returns.  The fragment list is exactly
/// one long, its concatenation equals the result, and the result is never
/// empty.
pub fn stub_stream(input: &String, target_lang: &String) -> (r: (Vec<String>, String))
    ensures
        r.0@.len() == 1,
        str_views(r.0@) == seq![stub_translation(input@, target_lang@)],
        r.1@ == stub_translation(input@, target_lang@),
        r.1@.len() > 0,
{
    proof {
        reveal_strlit("[");
    }
    let mut s = String::from_str("[");
    s.append(target_lang.as_str());
    s.append("] ");
    s.append(input.as_str());
    let mut frags: Vec<String> = Vec::new();
    frags.push(s.clone());
    proof {
        assert(str_views(frags@) =~= seq![stub_translation(input@, target_lang@)]);
    }
    (frags, s)
}

} // verus!
