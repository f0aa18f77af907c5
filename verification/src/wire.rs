//! Building provider requests.
//!
//! A translation request is built fresh per trigger from a configuration
//! snapshot and the captured clipboard payload, and then lowered into the
//! wire form its provider dialect expects: endpoint path, JSON body, and
//! bearer token where the dialect uses one.  An image rides along as a
//! base64 data URI.

use crate::clipboard::{ClipboardPayload, ImageData};
use crate::config::{Config, ProviderKind};
use crate::util::{contains_bytes, contains_seq, json_escaped, append_json_escaped};
use vstd::prelude::*;
use vstd::string::StringExecFns;
use vstd::string::StringSliceAdditionalSpecFns;
use vstd::utf8::encode_utf8;

verus! {

/// Buffers at most this long can be base64-encoded without the encoder's
/// size computation overflowing.
pub const B64_MAX_INPUT: usize = 0x4000_0000;

/// The standard, padded base64 encoding of a byte sequence.
pub uninterp spec fn b64_standard(bytes: Seq<u8>) -> Seq<u8>;

/// Relies on base64's `STANDARD` engine `encode`: the padded encoding writes
/// four characters for every started group of three input bytes.  The result
/// is a function of the input bytes alone.  The engine panics when the
/// output size overflows, so the input length is bounded.
#[verifier::external_body]
fn b64_encode(bytes: &[u8]) -> (r: Vec<u8>)
    requires
        bytes@.len() <= B64_MAX_INPUT,
    ensures
        r@ == b64_standard(bytes@),
        r@.len() == 4 * ((bytes@.len() + 2) / 3),
{
    base64::Engine::encode(&base64::engine::general_purpose::STANDARD, bytes).into_bytes()
}

/// ASCII upper-case letters mapped to lower case; everything else unchanged.
pub open spec fn lower_byte(b: u8) -> u8 {
    if 65 <= b <= 90 {
        (b + 32) as u8
    } else {
        b
    }
}

pub open spec fn lowered(s: Seq<u8>) -> Seq<u8> {
    s.map_values(|b: u8| lower_byte(b))
}

fn to_lower(s: &[u8]) -> (r: Vec<u8>)
    ensures
        r@ == lowered(s@),
{
    let mut out: Vec<u8> = Vec::new();
    let mut i: usize = 0;
    while i < s.len()
        invariant
            0 <= i <= s@.len(),
            out@.len() == i,
            forall|j: int| 0 <= j < i ==> out@[j] == lower_byte(s@[j]),
        decreases s@.len() - i,
    {
        let b = s[i];
        if 65 <= b && b <= 90 {
            out.push(b + 32);
        } else {
            out.push(b);
        }
        i = i + 1;
    }
    proof {
        assert(out@ =~= lowered(s@));
    }
    out
}

/// The language label names Chinese, compared case-insensitively.
pub open spec fn lang_is_chinese(lang: Seq<u8>) -> bool {
    contains_seq(lowered(lang), ("chinese").spec_bytes())
}

/// The language label names English, compared case-insensitively.
pub open spec fn lang_is_english(lang: Seq<u8>) -> bool {
    !lang_is_chinese(lang) && contains_seq(lowered(lang), ("english").spec_bytes())
}

/// The instruction sent to the model: a fixed wording around the input text
/// (or around the image reference, when an image is attached) and the target
/// language.
pub open spec fn prompt_spec(input: Seq<u8>, lang: Seq<u8>, has_image: bool) -> Seq<u8> {
    if lang_is_chinese(lang) {
        if has_image {
            ("Translate the text in this image to Chinese, only output the translation, no other text").spec_bytes()
        } else {
            ("Translate '").spec_bytes() + input + (
            "' to Chinese, only output the translation, no other text").spec_bytes()
        }
    } else if lang_is_english(lang) {
        if has_image {
            ("Translate the text in this image to English, only output the translation, no other text").spec_bytes()
        } else {
            ("Translate '").spec_bytes() + input + (
            "' to English, only output the translation, no other text").spec_bytes()
        }
    } else {
        if has_image {
            ("Translate the text in this image to ").spec_bytes() + lang + (
            ", only output the translation, no other text").spec_bytes()
        } else {
            ("Translate '").spec_bytes() + input + ("' to ").spec_bytes() + lang + (
            ", only output the translation, no other text").spec_bytes()
        }
    }
}

/// Build the instruction for one request.
pub fn build_prompt(input: &[u8], lang: &[u8], has_image: bool) -> (r: Vec<u8>)
    ensures
        r@ == prompt_spec(input@, lang@, has_image),
{
    let low = to_lower(lang);
    let chinese = contains_bytes(low.as_slice(), "chinese".as_bytes());
    let english = !chinese && contains_bytes(low.as_slice(), "english".as_bytes());
    let mut out: Vec<u8> = Vec::new();
    if chinese {
        if has_image {
            out.extend_from_slice(
                "Translate the text in this image to Chinese, only output the translation, no other text".as_bytes(),
            );
        } else {
            out.extend_from_slice("Translate '".as_bytes());
            out.extend_from_slice(input);
            out.extend_from_slice(
                "' to Chinese, only output the translation, no other text".as_bytes(),
            );
        }
    } else if english {
        if has_image {
            out.extend_from_slice(
                "Translate the text in this image to English, only output the translation, no other text".as_bytes(),
            );
        } else {
            out.extend_from_slice("Translate '".as_bytes());
            out.extend_from_slice(input);
            out.extend_from_slice(
                "' to English, only output the translation, no other text".as_bytes(),
            );
        }
    } else {
        if has_image {
            out.extend_from_slice("Translate the text in this image to ".as_bytes());
            out.extend_from_slice(lang);
            out.extend_from_slice(", only output the translation, no other text".as_bytes());
        } else {
            out.extend_from_slice("Translate '".as_bytes());
            out.extend_from_slice(input);
            out.extend_from_slice("' to ".as_bytes());
            out.extend_from_slice(lang);
            out.extend_from_slice(", only output the translation, no other text".as_bytes());
        }
    }
    proof {
        assert(out@ =~= prompt_spec(input@, lang@, has_image));
    }
    out
}

/// The data URI an attached image travels as.
pub open spec fn data_url_spec(mime: Seq<u8>, img: Seq<u8>) -> Seq<u8> {
    ("data:").spec_bytes() + mime + (";base64,").spec_bytes() + b64_standard(img)
}

/// Build the data URI for one attached image.
pub fn data_url(mime: &[u8], img: &[u8]) -> (r: Vec<u8>)
    requires
        img@.len() <= B64_MAX_INPUT,
    ensures
        r@ == data_url_spec(mime@, img@),
{
    let mut out: Vec<u8> = Vec::new();
    out.extend_from_slice("data:".as_bytes());
    out.extend_from_slice(mime);
    out.extend_from_slice(";base64,".as_bytes());
    let b64 = b64_encode(img);
    out.extend_from_slice(b64.as_slice());
    proof {
        assert(out@ =~= data_url_spec(mime@, img@));
    }
    out
}

/// The chat-completions body: one user message whose content is either the
/// plain instruction or a two-part list of the instruction and the image
/// data URI; streaming requested.
pub open spec fn openai_body_spec(
    model: Seq<u8>,
    prompt: Seq<u8>,
    image: Option<(Seq<u8>, Seq<u8>)>,
) -> Seq<u8> {
    ("{\"model\":\"").spec_bytes() + json_escaped(model) + (
    "\",\"messages\":[{\"role\":\"user\",\"content\":").spec_bytes() + (match image {
        None => ("\"").spec_bytes() + json_escaped(prompt) + ("\"").spec_bytes(),
        Some((mime, img)) => ("[{\"type\":\"text\",\"text\":\"").spec_bytes() + json_escaped(
            prompt,
        ) + ("\"},{\"type\":\"image_url\",\"image_url\":{\"url\":\"").spec_bytes() + json_escaped(
            data_url_spec(mime, img),
        ) + ("\",\"detail\":\"high\"}}]").spec_bytes(),
    }) + ("}],\"temperature\":0.1,\"max_tokens\":1024,\"stream\":true}").spec_bytes()
}

/// Build the chat-completions body.
pub fn openai_body(model: &[u8], prompt: &[u8], image: Option<&ImageData>) -> (r: Vec<u8>)
    requires
        match image {
            Some(d) => d.bytes@.len() <= B64_MAX_INPUT,
            None => true,
        },
    ensures
        r@ == openai_body_spec(
            model@,
            prompt@,
            match image {
                Some(d) => Some((encode_utf8(d.mime_type@), d.bytes@)),
                None => None,
            },
        ),
{
    let mut out: Vec<u8> = Vec::new();
    out.extend_from_slice("{\"model\":\"".as_bytes());
    append_json_escaped(&mut out, model);
    out.extend_from_slice("\",\"messages\":[{\"role\":\"user\",\"content\":".as_bytes());
    match image {
        None => {
            out.extend_from_slice("\"".as_bytes());
            append_json_escaped(&mut out, prompt);
            out.extend_from_slice("\"".as_bytes());
        },
        Some(d) => {
            out.extend_from_slice("[{\"type\":\"text\",\"text\":\"".as_bytes());
            append_json_escaped(&mut out, prompt);
            out.extend_from_slice("\"},{\"type\":\"image_url\",\"image_url\":{\"url\":\"".as_bytes());
            let url = data_url(d.mime_type.as_str().as_bytes(), d.bytes.as_slice());
            append_json_escaped(&mut out, url.as_slice());
            out.extend_from_slice("\",\"detail\":\"high\"}}]".as_bytes());
        },
    }
    out.extend_from_slice("}],\"temperature\":0.1,\"max_tokens\":1024,\"stream\":true}".as_bytes());
    proof {
        assert(out@ =~= openai_body_spec(
            model@,
            prompt@,
            match image {
                Some(d) => Some((encode_utf8(d.mime_type@), d.bytes@)),
                None => None,
            },
        ));
    }
    out
}

/// The native generation body: a plain prompt, streaming requested, and the
/// base64 image list when an image is attached.
pub open spec fn ollama_body_spec(model: Seq<u8>, prompt: Seq<u8>, image: Option<Seq<u8>>) -> Seq<
    u8,
> {
    ("{\"model\":\"").spec_bytes() + json_escaped(model) + ("\",\"prompt\":\"").spec_bytes()
        + json_escaped(prompt) + ("\",\"stream\":true").spec_bytes() + (match image {
        None => Seq::<u8>::empty(),
        Some(img) => (",\"images\":[\"").spec_bytes() + b64_standard(img) + ("\"]").spec_bytes(),
    }) + ("}").spec_bytes()
}

/// Build the native generation body.
pub fn ollama_body(model: &[u8], prompt: &[u8], image: Option<&ImageData>) -> (r: Vec<u8>)
    requires
        match image {
            Some(d) => d.bytes@.len() <= B64_MAX_INPUT,
            None => true,
        },
    ensures
        r@ == ollama_body_spec(
            model@,
            prompt@,
            match image {
                Some(d) => Some(d.bytes@),
                None => None,
            },
        ),
{
    let mut out: Vec<u8> = Vec::new();
    out.extend_from_slice("{\"model\":\"".as_bytes());
    append_json_escaped(&mut out, model);
    out.extend_from_slice("\",\"prompt\":\"".as_bytes());
    append_json_escaped(&mut out, prompt);
    out.extend_from_slice("\",\"stream\":true".as_bytes());
    if let Some(d) = image {
        out.extend_from_slice(",\"images\":[\"".as_bytes());
        let b64 = b64_encode(d.bytes.as_slice());
        out.extend_from_slice(b64.as_slice());
        out.extend_from_slice("\"]".as_bytes());
    }
    out.extend_from_slice("}".as_bytes());
    proof {
        assert(out@ =~= ollama_body_spec(
            model@,
            prompt@,
            match image {
                Some(d) => Some(d.bytes@),
                None => None,
            },
        ));
    }
    out
}

/// One translation attempt, built fresh per trigger from a configuration
/// snapshot and the captured payload; never mutated after construction.
pub struct TranslationRequest {
    pub payload: ClipboardPayload,
    pub target_lang: String,
    pub provider: ProviderKind,
    pub model: String,
    pub api_key: String,
    pub api_base: String,
}

/// Build one request from a configuration snapshot and a payload.
pub fn make_request(c: &Config, payload: ClipboardPayload) -> (r: TranslationRequest)
    ensures
        r.payload == payload,
        r.target_lang == c.target_lang,
        r.provider == c.provider,
        r.model == c.openai_model,
        r.api_key == c.openai_api_key,
        r.api_base == c.api_base,
{
    TranslationRequest {
        payload,
        target_lang: c.target_lang.clone(),
        provider: c.provider,
        model: c.openai_model.clone(),
        api_key: c.openai_api_key.clone(),
        api_base: c.api_base.clone(),
    }
}

/// The instruction a request sends: built over its text (empty when an image
/// is attached, which replaces the text in the wording) and target language.
pub open spec fn request_prompt(r: TranslationRequest) -> Seq<u8> {
    prompt_spec(
        match r.payload {
            ClipboardPayload::Text(t) => encode_utf8(t@),
            _ => Seq::empty(),
        },
        encode_utf8(r.target_lang@),
        r.payload is Image,
    )
}

/// The body a request posts, in its provider's dialect.
pub open spec fn request_body_spec(r: TranslationRequest) -> Seq<u8> {
    match r.provider {
        ProviderKind::OpenaiCompatible => openai_body_spec(
            encode_utf8(r.model@),
            request_prompt(r),
            match r.payload {
                ClipboardPayload::Image(d) => Some((encode_utf8(d.mime_type@), d.bytes@)),
                _ => None,
            },
        ),
        ProviderKind::OllamaNative => ollama_body_spec(
            encode_utf8(r.model@),
            request_prompt(r),
            match r.payload {
                ClipboardPayload::Image(d) => Some(d.bytes@),
                _ => None,
            },
        ),
        ProviderKind::StubFree => Seq::empty(),
    }
}

/// An attached image is small enough to encode.
pub open spec fn payload_image_small(r: TranslationRequest) -> bool {
    match r.payload {
        ClipboardPayload::Image(d) => d.bytes@.len() <= B64_MAX_INPUT,
        _ => true,
    }
}

/// What goes onto the network for one request: where to post, what to post,
/// and the bearer token when the dialect authenticates.
pub struct WireRequest {
    pub endpoint: String,
    pub body: Vec<u8>,
    pub bearer_token: Option<String>,
}

/// Lower a request into its wire form.  Only the OpenAI-compatible dialect
/// authenticates, and only when a token is present.
pub fn build_wire_request(req: &TranslationRequest) -> (r: WireRequest)
    requires
        !(req.provider is StubFree),
        payload_image_small(*req),
    ensures
        r.endpoint@ == endpoint_spec(req.provider, req.api_base@),
        r.body@ == request_body_spec(*req),
        match r.bearer_token {
            Some(t) => req.provider is OpenaiCompatible && req.api_key@.len() > 0 && t
                == req.api_key,
            None => !(req.provider is OpenaiCompatible) || req.api_key@.len() == 0,
        },
{
    let input_vec: Vec<u8> = match &req.payload {
        ClipboardPayload::Text(t) => t.as_str().as_bytes_vec(),
        _ => Vec::new(),
    };
    let lang_vec = req.target_lang.as_str().as_bytes_vec();
    let has_image = match &req.payload {
        ClipboardPayload::Image(_) => true,
        _ => false,
    };
    proof {
        if !(req.payload is Text) {
            assert(input_vec@ =~= Seq::<u8>::empty());
        }
    }
    let prompt = build_prompt(input_vec.as_slice(), lang_vec.as_slice(), has_image);
    let model_vec = req.model.as_str().as_bytes_vec();
    let image_ref: Option<&ImageData> = match &req.payload {
        ClipboardPayload::Image(d) => Some(d),
        _ => None,
    };
    let body = match req.provider {
        ProviderKind::OpenaiCompatible => openai_body(
            model_vec.as_slice(),
            prompt.as_slice(),
            image_ref,
        ),
        ProviderKind::OllamaNative => ollama_body(model_vec.as_slice(), prompt.as_slice(), image_ref),
        ProviderKind::StubFree => Vec::new(),
    };
    let endpoint = endpoint_for(req.provider, &req.api_base);
    let bearer_token = match req.provider {
        ProviderKind::OpenaiCompatible => {
            if req.api_key.as_str().is_empty() {
                None
            } else {
                Some(req.api_key.clone())
            }
        },
        _ => None,
    };
    WireRequest { endpoint, body, bearer_token }
}

/// The endpoint one provider dialect posts to, under the configured base.
pub open spec fn endpoint_spec(p: ProviderKind, base: Seq<char>) -> Seq<char> {
    match p {
        ProviderKind::OpenaiCompatible => base + "/chat/completions"@,
        ProviderKind::OllamaNative => base + "/api/generate"@,
        ProviderKind::StubFree => Seq::empty(),
    }
}

/// Build the endpoint for one provider dialect.  The stub provider makes no
/// call and gets none.
pub fn endpoint_for(p: ProviderKind, base: &String) -> (r: String)
    ensures
        r@ == endpoint_spec(p, base@),
{
    match p {
        ProviderKind::OpenaiCompatible => base.clone().concat("/chat/completions"),
        ProviderKind::OllamaNative => base.clone().concat("/api/generate"),
        ProviderKind::StubFree => String::new(),
    }
}

} // verus!
