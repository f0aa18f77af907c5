//! Connection and behaviour settings.
//!
//! A [`Config`] is loaded once at startup from whatever the persisted record
//! and the environment supplied, read by any actor as an independent
//! snapshot, and replaced as a whole on an explicit save.  Which fields are
//! semantically required depends on the provider kind: only the
//! OpenAI-compatible dialect needs an auth token.

use crate::stream::views;
use crate::util::{append_json_escaped, bytes_eq, json_escaped, trim, trimmed};
use vstd::prelude::*;
use vstd::string::StringExecFns;
use vstd::string::StringSliceAdditionalSpecFns;
use vstd::utf8::encode_utf8;

verus! {

/// The hotkey descriptor a fresh configuration carries.
pub fn default_hotkey() -> (r: String)
    ensures
        r@ == "Alt+F3"@,
{
    String::from_str("Alt+F3")
}

/// Which remote API dialect a request targets.
#[derive(Clone, Copy, PartialEq, Eq, Structural, Debug)]
pub enum ProviderKind {
    /// Chat-completions endpoint with bearer auth and an SSE stream.
    OpenaiCompatible,
    /// Native generation endpoint, no auth, newline-delimited JSON.
    OllamaNative,
    /// No network at all; a fixed local answer.
    StubFree,
}

/// Connection and behaviour settings.
pub struct Config {
    pub openai_api_key: String,
    pub openai_model: String,
    pub target_lang: String,
    pub hotkey: String,
    pub api_base: String,
    pub provider: ProviderKind,
}

/// The documented fallback for every field a persisted record may omit.
pub open spec fn is_default_config(c: Config) -> bool {
    &&& c.openai_api_key@ == Seq::<char>::empty()
    &&& c.openai_model@ == "gpt-4o-mini"@
    &&& c.target_lang@ == "English"@
    &&& c.hotkey@ == "Alt+F3"@
    &&& c.api_base@ == "https://api.openai.com/v1"@
    &&& c.provider == ProviderKind::OpenaiCompatible
}

impl Default for Config {
    fn default() -> (r: Config)
        ensures
            is_default_config(r),
    {
        Config {
            openai_api_key: String::new(),
            openai_model: String::from_str("gpt-4o-mini"),
            target_lang: String::from_str("English"),
            hotkey: String::from_str("Alt+F3"),
            api_base: String::from_str("https://api.openai.com/v1"),
            provider: ProviderKind::OpenaiCompatible,
        }
    }
}

impl Config {
    /// Build a configuration from whatever fields the persisted record
    /// supplied; every missing field falls back to its documented default.
    pub fn from_parts(
        key: Option<String>,
        model: Option<String>,
        lang: Option<String>,
        hotkey: Option<String>,
        base: Option<String>,
        provider: Option<ProviderKind>,
    ) -> (c: Config)
        ensures
            match key {
                Some(v) => c.openai_api_key == v,
                None => c.openai_api_key@ == Seq::<char>::empty(),
            },
            match model {
                Some(v) => c.openai_model == v,
                None => c.openai_model@ == "gpt-4o-mini"@,
            },
            match lang {
                Some(v) => c.target_lang == v,
                None => c.target_lang@ == "English"@,
            },
            match hotkey {
                Some(v) => c.hotkey == v,
                None => c.hotkey@ == "Alt+F3"@,
            },
            match base {
                Some(v) => c.api_base == v,
                None => c.api_base@ == "https://api.openai.com/v1"@,
            },
            match provider {
                Some(v) => c.provider == v,
                None => c.provider == ProviderKind::OpenaiCompatible,
            },
    {
        Config {
            openai_api_key: match key {
                Some(v) => v,
                None => String::new(),
            },
            openai_model: match model {
                Some(v) => v,
                None => String::from_str("gpt-4o-mini"),
            },
            target_lang: match lang {
                Some(v) => v,
                None => String::from_str("English"),
            },
            hotkey: match hotkey {
                Some(v) => v,
                None => String::from_str("Alt+F3"),
            },
            api_base: match base {
                Some(v) => v,
                None => String::from_str("https://api.openai.com/v1"),
            },
            provider: match provider {
                Some(v) => v,
                None => ProviderKind::OpenaiCompatible,
            },
        }
    }

    /// An independent copy, field by field.
    pub fn snapshot(&self) -> (c: Config)
        ensures
            c == *self,
    {
        Config {
            openai_api_key: self.openai_api_key.clone(),
            openai_model: self.openai_model.clone(),
            target_lang: self.target_lang.clone(),
            hotkey: self.hotkey.clone(),
            api_base: self.api_base.clone(),
            provider: self.provider,
        }
    }

    /// Overrides from the environment, applied after the persisted record
    /// and only where the variable was set and non-empty.
    pub fn apply_env_overrides(
        &mut self,
        key: Option<String>,
        model: Option<String>,
        lang: Option<String>,
    )
        ensures
            final(self).openai_api_key == match key {
                Some(v) => if v@.len() > 0 {
                    v
                } else {
                    old(self).openai_api_key
                },
                None => old(self).openai_api_key,
            },
            final(self).openai_model == match model {
                Some(v) => if v@.len() > 0 {
                    v
                } else {
                    old(self).openai_model
                },
                None => old(self).openai_model,
            },
            final(self).target_lang == match lang {
                Some(v) => if v@.len() > 0 {
                    v
                } else {
                    old(self).target_lang
                },
                None => old(self).target_lang,
            },
            final(self).hotkey == old(self).hotkey,
            final(self).api_base == old(self).api_base,
            final(self).provider == old(self).provider,
    {
        if let Some(v) = key {
            if v.as_str().unicode_len() > 0 {
                self.openai_api_key = v;
            }
        }
        if let Some(v) = model {
            if v.as_str().unicode_len() > 0 {
                self.openai_model = v;
            }
        }
        if let Some(v) = lang {
            if v.as_str().unicode_len() > 0 {
                self.target_lang = v;
            }
        }
    }
}

/// ASCII lower-case letters mapped to upper case; everything else unchanged.
pub open spec fn upper_byte(b: u8) -> u8 {
    if 97 <= b <= 122 {
        (b - 32) as u8
    } else {
        b
    }
}

pub open spec fn uppered(s: Seq<u8>) -> Seq<u8> {
    s.map_values(|b: u8| upper_byte(b))
}

/// Map a byte string to ASCII upper case.
fn to_upper(s: &[u8]) -> (r: Vec<u8>)
    ensures
        r@ == uppered(s@),
{
    let mut out: Vec<u8> = Vec::new();
    let mut i: usize = 0;
    while i < s.len()
        invariant
            0 <= i <= s@.len(),
            out@.len() == i,
            forall|j: int| 0 <= j < i ==> out@[j] == upper_byte(s@[j]),
        decreases s@.len() - i,
    {
        let b = s[i];
        if 97 <= b && b <= 122 {
            out.push(b - 32);
        } else {
            out.push(b);
        }
        i = i + 1;
    }
    proof {
        assert(out@ =~= uppered(s@));
    }
    out
}

/// The spelled-out modifier keywords a hotkey descriptor may hold, in ASCII
/// upper case.
pub open spec fn word_ctrl() -> Seq<u8> {
    seq![67u8, 84u8, 82u8, 76u8]
}

pub open spec fn word_control() -> Seq<u8> {
    seq![67u8, 79u8, 78u8, 84u8, 82u8, 79u8, 76u8]
}

pub open spec fn word_alt() -> Seq<u8> {
    seq![65u8, 76u8, 84u8]
}

pub open spec fn word_shift() -> Seq<u8> {
    seq![83u8, 72u8, 73u8, 70u8, 84u8]
}

pub open spec fn word_win() -> Seq<u8> {
    seq![87u8, 73u8, 78u8]
}

pub open spec fn word_windows() -> Seq<u8> {
    seq![87u8, 73u8, 78u8, 68u8, 79u8, 87u8, 83u8]
}

/// The system modifier flag one descriptor part contributes, compared
/// case-insensitively after trimming: alt 1, control 2, shift 4, the
/// system key 8, anything unrecognized nothing.
pub open spec fn modifier_bits(part: Seq<u8>) -> u32 {
    let u = uppered(trimmed(part));
    if u == word_ctrl() || u == word_control() {
        2u32
    } else if u == word_alt() {
        1u32
    } else if u == word_shift() {
        4u32
    } else if u == word_win() || u == word_windows() {
        8u32
    } else {
        0u32
    }
}

/// The modifier flags of all parts, combined.
pub open spec fn modifiers_of(parts: Seq<Seq<u8>>) -> u32
    decreases parts.len(),
{
    if parts.len() == 0 {
        0u32
    } else {
        modifiers_of(parts.drop_last()) | modifier_bits(parts.last())
    }
}

fn word_vec(which: u8) -> (v: Vec<u8>)
    requires
        which < 6,
    ensures
        which == 0 ==> v@ == word_ctrl(),
        which == 1 ==> v@ == word_control(),
        which == 2 ==> v@ == word_alt(),
        which == 3 ==> v@ == word_shift(),
        which == 4 ==> v@ == word_win(),
        which == 5 ==> v@ == word_windows(),
{
    let mut v: Vec<u8> = Vec::new();
    if which == 0 {
        v.push(67);
        v.push(84);
        v.push(82);
        v.push(76);
        proof {
            assert(v@ =~= word_ctrl());
        }
    } else if which == 1 {
        v.push(67);
        v.push(79);
        v.push(78);
        v.push(84);
        v.push(82);
        v.push(79);
        v.push(76);
        proof {
            assert(v@ =~= word_control());
        }
    } else if which == 2 {
        v.push(65);
        v.push(76);
        v.push(84);
        proof {
            assert(v@ =~= word_alt());
        }
    } else if which == 3 {
        v.push(83);
        v.push(72);
        v.push(73);
        v.push(70);
        v.push(84);
        proof {
            assert(v@ =~= word_shift());
        }
    } else if which == 4 {
        v.push(87);
        v.push(73);
        v.push(78);
        proof {
            assert(v@ =~= word_win());
        }
    } else {
        v.push(87);
        v.push(73);
        v.push(78);
        v.push(68);
        v.push(79);
        v.push(87);
        v.push(83);
        proof {
            assert(v@ =~= word_windows());
        }
    }
    v
}

fn modifier_bits_exec(part: &[u8]) -> (m: u32)
    ensures
        m == modifier_bits(part@),
{
    let t = trim(part);
    let u = to_upper(t.as_slice());
    let us = u.as_slice();
    if bytes_eq(us, word_vec(0).as_slice()) || bytes_eq(us, word_vec(1).as_slice()) {
        2
    } else if bytes_eq(us, word_vec(2).as_slice()) {
        1
    } else if bytes_eq(us, word_vec(3).as_slice()) {
        4
    } else if bytes_eq(us, word_vec(4).as_slice()) || bytes_eq(us, word_vec(5).as_slice()) {
        8
    } else {
        0
    }
}

/// A digit or an upper-case letter.
pub open spec fn is_alnum_upper(b: u8) -> bool {
    (48 <= b <= 57) || (65 <= b <= 90)
}

/// The system key code the final descriptor part names, compared
/// case-insensitively after trimming: the function keys carry the codes
/// 0x70 through 0x7b, a single letter or digit its own upper-case ASCII
/// value, anything else nothing.
pub open spec fn key_code_of(part: Seq<u8>) -> Option<u32> {
    let u = uppered(trimmed(part));
    if u.len() == 2 && u[0] == 70 && 49 <= u[1] <= 57 {
        Some((0x70 + (u[1] - 49)) as u32)
    } else if u.len() == 3 && u[0] == 70 && u[1] == 49 && 48 <= u[2] <= 50 {
        Some((0x79 + (u[2] - 48)) as u32)
    } else if u.len() == 1 && is_alnum_upper(u[0]) {
        Some(u[0] as u32)
    } else {
        None
    }
}

fn key_code_exec(part: &[u8]) -> (r: Option<u32>)
    ensures
        r == key_code_of(part@),
{
    let t = trim(part);
    let u = to_upper(t.as_slice());
    if u.len() == 2 && u[0] == 70 && 49 <= u[1] && u[1] <= 57 {
        Some(0x70 + ((u[1] - 49) as u32))
    } else if u.len() == 3 && u[0] == 70 && u[1] == 49 && 48 <= u[2] && u[2] <= 50 {
        Some(0x79 + ((u[2] - 48) as u32))
    } else if u.len() == 1 && ((48 <= u[0] && u[0] <= 57) || (65 <= u[0] && u[0] <= 90)) {
        Some(u[0] as u32)
    } else {
        None
    }
}

/// A descriptor split at every `+`, keeping empty parts.
pub open spec fn split_plus(s: Seq<u8>) -> Seq<Seq<u8>>
    decreases s.len(),
{
    if s.len() == 0 {
        seq![Seq::<u8>::empty()]
    } else {
        let prev = split_plus(s.drop_last());
        if s.last() == 43 {
            prev.push(Seq::empty())
        } else {
            prev.update(prev.len() - 1, prev.last().push(s.last()))
        }
    }
}

/// What parsing a hotkey descriptor yields: the combined modifier flags of
/// every part but the last, and the key code the last part names; nothing
/// when the key part is not recognized.
pub open spec fn hotkey_spec(s: Seq<u8>) -> Option<(u32, u32)> {
    let parts = split_plus(s);
    match key_code_of(parts.last()) {
        Some(k) => Some((modifiers_of(parts.drop_last()), k)),
        None => None,
    }
}

impl Config {
    /// Parse the hotkey descriptor (`Alt+F3`, `Ctrl+Shift+T`, ...) into the
    /// system modifier flags and key code it names.
    pub fn parse_hotkey(&self) -> (r: Option<(u32, u32)>)
        ensures
            r == hotkey_spec(encode_utf8(self.hotkey@)),
    {
        let bytes = self.hotkey.as_str().as_bytes();
        let ghost whole = bytes@;
        let mut parts: Vec<Vec<u8>> = Vec::new();
        let mut cur: Vec<u8> = Vec::new();
        let mut i: usize = 0;
        proof {
            assert(views(parts@).push(cur@) =~= split_plus(whole.subrange(0, 0)));
        }
        while i < bytes.len()
            invariant
                0 <= i <= whole.len(),
                bytes@ == whole,
                views(parts@).push(cur@) == split_plus(whole.subrange(0, i as int)),
            decreases whole.len() - i,
        {
            let b = bytes[i];
            let ghost pref = whole.subrange(0, i as int);
            proof {
                assert(whole.subrange(0, i + 1).drop_last() =~= pref);
                assert(whole.subrange(0, i + 1).last() == whole[i as int]);
            }
            if b == 43 {
                let mut part: Vec<u8> = Vec::new();
                core::mem::swap(&mut part, &mut cur);
                proof {
                    assert(views(parts@.push(part)).push(cur@) =~= split_plus(
                        pref,
                    ).push(Seq::empty()));
                }
                parts.push(part);
            } else {
                let ghost p = split_plus(pref);
                proof {
                    assert(p.last() == cur@);
                    assert(views(parts@).push(cur@.push(b)) =~= p.update(
                        p.len() - 1,
                        p.last().push(b),
                    ));
                }
                cur.push(b);
            }
            i = i + 1;
        }
        proof {
            assert(whole.subrange(0, whole.len() as int) =~= whole);
        }
        parts.push(cur);
        let ghost all = split_plus(whole);
        proof {
            assert(views(parts@) =~= all);
        }
        let n = parts.len();
        let key = match key_code_exec(parts[n - 1].as_slice()) {
            Some(k) => k,
            None => {
                return None;
            },
        };
        let mut mods: u32 = 0;
        let mut j: usize = 0;
        proof {
            assert(views(parts@).subrange(0, 0) =~= Seq::<Seq<u8>>::empty());
        }
        while j < n - 1
            invariant
                0 <= j <= n - 1,
                n == parts@.len(),
                n >= 1,
                views(parts@) == all,
                mods == modifiers_of(all.subrange(0, j as int)),
            decreases n - 1 - j,
        {
            proof {
                assert(all.subrange(0, j + 1).drop_last() =~= all.subrange(0, j as int));
                assert(all.subrange(0, j + 1).last() == all[j as int]);
            }
            mods = mods | modifier_bits_exec(parts[j].as_slice());
            j = j + 1;
        }
        proof {
            assert(all.subrange(0, n - 1) =~= all.drop_last());
        }
        Some((mods, key))
    }
}

/// Whether a provider kind requires an auth token.
pub open spec fn requires_auth_token(p: ProviderKind) -> bool {
    p is OpenaiCompatible
}

/// Whether a translation attempt under `c` must stop with a missing-key
/// notice: the provider requires a token and the token field is empty.
pub open spec fn missing_key(c: Config) -> bool {
    requires_auth_token(c.provider) && c.openai_api_key@.len() == 0
}

/// Runtime check of [`missing_key`].
pub fn config_missing_key(c: &Config) -> (r: bool)
    ensures
        r == missing_key(*c),
{
    match c.provider {
        ProviderKind::OpenaiCompatible => c.openai_api_key.as_str().unicode_len() == 0,
        _ => false,
    }
}

/// Law: only the OpenAI-compatible provider can fail the missing-key
/// precondition.  Replacing a configuration's provider with one that needs
/// no token makes the precondition pass whatever the token field holds — in
/// particular an empty one.
pub proof fn lemma_provider_switch_resets_token_requirement(c: Config)
    requires
        c.provider == ProviderKind::OllamaNative || c.provider == ProviderKind::StubFree,
    ensures
        !missing_key(c),
{
}

/// Why a save failed in the backing store.
#[derive(Clone, Copy, PartialEq, Eq, Structural, Debug)]
pub enum PersistError {
    /// The backing store did not accept the record.
    WriteFailed,
}

/// The shared configuration record: any actor reads an independent snapshot,
/// and a save replaces the whole record — but only after the backing store
/// accepted it, so no reader ever observes a half-written record.
pub struct SharedConfig {
    current: Config,
}

impl SharedConfig {
    /// The record readers currently observe.
    pub closed spec fn current(&self) -> Config {
        self.current
    }

    pub fn new(initial: Config) -> (r: SharedConfig)
        ensures
            r.current() == initial,
    {
        SharedConfig { current: initial }
    }

    /// An independent copy of the current record; never blocks on I/O.
    pub fn snapshot(&self) -> (c: Config)
        ensures
            c == self.current(),
    {
        self.current.snapshot()
    }

    /// Replace the record.  `persisted` reports whether the backing store
    /// accepted the new record; the in-memory value is swapped only then, so
    /// a failed save leaves the old record in force.
    pub fn replace(&mut self, new: Config, persisted: bool) -> (r: Result<(), PersistError>)
        ensures
            persisted ==> r is Ok && final(self).current() == new,
            !persisted ==> r == Err::<(), PersistError>(PersistError::WriteFailed)
                && final(self).current() == old(self).current(),
    {
        if persisted {
            self.current = new;
            Ok(())
        } else {
            Err(PersistError::WriteFailed)
        }
    }
}

/// The label a provider kind carries in the persisted record.
pub open spec fn provider_label_spec(p: ProviderKind) -> Seq<char> {
    match p {
        ProviderKind::OpenaiCompatible => "openai-compatible"@,
        ProviderKind::OllamaNative => "ollama-native"@,
        ProviderKind::StubFree => "stub-free-provider"@,
    }
}

/// The persisted label of a provider kind.
pub fn provider_label(p: ProviderKind) -> (r: String)
    ensures
        r@ == provider_label_spec(p),
{
    match p {
        ProviderKind::OpenaiCompatible => String::from_str("openai-compatible"),
        ProviderKind::OllamaNative => String::from_str("ollama-native"),
        ProviderKind::StubFree => String::from_str("stub-free-provider"),
    }
}

/// The provider kind a persisted label names, if any.
pub fn provider_from_label(s: &String) -> (r: Option<ProviderKind>)
    ensures
        match r {
            Some(p) => provider_label_spec(p) == s@,
            None => (forall|p: ProviderKind| provider_label_spec(p) != s@),
        },
{
    let openai = String::from_str("openai-compatible");
    let ollama = String::from_str("ollama-native");
    let stub = String::from_str("stub-free-provider");
    if s.eq(&openai) {
        Some(ProviderKind::OpenaiCompatible)
    } else if s.eq(&ollama) {
        Some(ProviderKind::OllamaNative)
    } else if s.eq(&stub) {
        Some(ProviderKind::StubFree)
    } else {
        assert(forall|p: ProviderKind| provider_label_spec(p) != s@) by {
            assert(provider_label_spec(ProviderKind::OpenaiCompatible) != s@);
            assert(provider_label_spec(ProviderKind::OllamaNative) != s@);
            assert(provider_label_spec(ProviderKind::StubFree) != s@);
        }
        None
    }
}

/// The persisted form of a configuration: one JSON object holding every
/// field, strings escaped, the provider as its label.
pub open spec fn config_json_spec(c: Config) -> Seq<u8> {
    ("{\"openai_api_key\":\"").spec_bytes() + json_escaped(encode_utf8(c.openai_api_key@)) + (
    "\",\"openai_model\":\"").spec_bytes() + json_escaped(encode_utf8(c.openai_model@)) + (
    "\",\"target_lang\":\"").spec_bytes() + json_escaped(encode_utf8(c.target_lang@)) + (
    "\",\"hotkey\":\"").spec_bytes() + json_escaped(encode_utf8(c.hotkey@)) + (
    "\",\"api_base\":\"").spec_bytes() + json_escaped(encode_utf8(c.api_base@)) + (
    "\",\"provider\":\"").spec_bytes() + json_escaped(encode_utf8(provider_label_spec(c.provider)))
        + ("\"}").spec_bytes()
}

/// Serialize a configuration for the backing store.
pub fn config_json(c: &Config) -> (r: Vec<u8>)
    ensures
        r@ == config_json_spec(*c),
{
    let mut out: Vec<u8> = Vec::new();
    out.extend_from_slice("{\"openai_api_key\":\"".as_bytes());
    append_json_escaped(&mut out, c.openai_api_key.as_str().as_bytes());
    out.extend_from_slice("\",\"openai_model\":\"".as_bytes());
    append_json_escaped(&mut out, c.openai_model.as_str().as_bytes());
    out.extend_from_slice("\",\"target_lang\":\"".as_bytes());
    append_json_escaped(&mut out, c.target_lang.as_str().as_bytes());
    out.extend_from_slice("\",\"hotkey\":\"".as_bytes());
    append_json_escaped(&mut out, c.hotkey.as_str().as_bytes());
    out.extend_from_slice("\",\"api_base\":\"".as_bytes());
    append_json_escaped(&mut out, c.api_base.as_str().as_bytes());
    out.extend_from_slice("\",\"provider\":\"".as_bytes());
    let label = provider_label(c.provider);
    append_json_escaped(&mut out, label.as_str().as_bytes());
    out.extend_from_slice("\"}".as_bytes());
    proof {
        assert(out@ =~= config_json_spec(*c));
    }
    out
}

} // verus!
