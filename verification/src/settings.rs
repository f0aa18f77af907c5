//! The settings form's choices.
//!
//! The form itself is presentation; what it decides is here: how provider
//! kinds map to the form's choice list, which base URL and model each choice
//! brings along, and how a filled form becomes the configuration record that
//! a save replaces.

use crate::config::{Config, ProviderKind};
use vstd::prelude::*;
use vstd::string::StringExecFns;

verus! {

/// The position a provider kind takes in the form's choice list.
pub fn provider_index(p: ProviderKind) -> (i: usize)
    ensures
        p is OpenaiCompatible ==> i == 0,
        p is OllamaNative ==> i == 1,
        p is StubFree ==> i == 2,
{
    match p {
        ProviderKind::OpenaiCompatible => 0,
        ProviderKind::OllamaNative => 1,
        ProviderKind::StubFree => 2,
    }
}

/// The provider kind a choice position names; unknown positions fall back to
/// the first choice.
pub fn provider_for_index(i: usize) -> (p: ProviderKind)
    ensures
        i == 0 ==> p is OpenaiCompatible,
        i == 1 ==> p is OllamaNative,
        i == 2 ==> p is StubFree,
        i > 2 ==> p is OpenaiCompatible,
{
    if i == 1 {
        ProviderKind::OllamaNative
    } else if i == 2 {
        ProviderKind::StubFree
    } else {
        ProviderKind::OpenaiCompatible
    }
}

/// The base URL a provider choice configures on its own.
pub open spec fn default_base_spec(p: ProviderKind) -> Seq<char> {
    match p {
        ProviderKind::OpenaiCompatible => "https://api.openai.com/v1"@,
        ProviderKind::OllamaNative => "http://localhost:11434"@,
        ProviderKind::StubFree => Seq::empty(),
    }
}

/// The base URL a provider choice configures on its own.
pub fn default_base_for(p: ProviderKind) -> (r: String)
    ensures
        r@ == default_base_spec(p),
{
    match p {
        ProviderKind::OpenaiCompatible => String::from_str("https://api.openai.com/v1"),
        ProviderKind::OllamaNative => String::from_str("http://localhost:11434"),
        ProviderKind::StubFree => String::new(),
    }
}

/// The model a choice position names under a provider; unknown positions
/// fall back to the provider's first model.
pub open spec fn model_for_selection_spec(p: ProviderKind, i: usize) -> Seq<char> {
    match p {
        ProviderKind::OpenaiCompatible => "gpt-4o-mini"@,
        ProviderKind::OllamaNative => if i == 1 {
            "gemma3:270m"@
        } else {
            "gemma3:1b"@
        },
        ProviderKind::StubFree => "stub"@,
    }
}

/// The model a choice position names under a provider.
pub fn model_for_selection(p: ProviderKind, i: usize) -> (r: String)
    ensures
        r@ == model_for_selection_spec(p, i),
{
    match p {
        ProviderKind::OpenaiCompatible => String::from_str("gpt-4o-mini"),
        ProviderKind::OllamaNative => if i == 1 {
            String::from_str("gemma3:270m")
        } else {
            String::from_str("gemma3:1b")
        },
        ProviderKind::StubFree => String::from_str("stub"),
    }
}

/// The choice position a configured model takes under a provider; an unknown
/// model shows as the first choice.
pub fn model_index_for(p: ProviderKind, model: &String) -> (i: usize)
    ensures
        i == if p is OllamaNative && model@ == "gemma3:270m"@ {
            1int
        } else {
            0int
        },
{
    match p {
        ProviderKind::OllamaNative => {
            let alt = String::from_str("gemma3:270m");
            if model.eq(&alt) {
                1
            } else {
                0
            }
        },
        _ => 0,
    }
}

/// The fields the settings form edits.
pub struct SettingsForm {
    pub api_key: String,
    pub model: String,
    pub target_lang: String,
    pub hotkey: String,
    pub api_base: String,
    pub provider: ProviderKind,
}

/// Fill the form from the current configuration.
pub fn form_from_config(c: &Config) -> (f: SettingsForm)
    ensures
        f.api_key == c.openai_api_key,
        f.model == c.openai_model,
        f.target_lang == c.target_lang,
        f.hotkey == c.hotkey,
        f.api_base == c.api_base,
        f.provider == c.provider,
{
    SettingsForm {
        api_key: c.openai_api_key.clone(),
        model: c.openai_model.clone(),
        target_lang: c.target_lang.clone(),
        hotkey: c.hotkey.clone(),
        api_base: c.api_base.clone(),
        provider: c.provider,
    }
}

/// Switching the provider choice reconfigures the base URL and resets the
/// model to the provider's first choice; the other fields stay.
pub fn select_provider(f: &mut SettingsForm, i: usize)
    ensures
        final(f).provider == if i == 1 {
            ProviderKind::OllamaNative
        } else if i == 2 {
            ProviderKind::StubFree
        } else {
            ProviderKind::OpenaiCompatible
        },
        final(f).api_base@ == default_base_spec(final(f).provider),
        final(f).model@ == model_for_selection_spec(final(f).provider, 0),
        final(f).api_key == old(f).api_key,
        final(f).target_lang == old(f).target_lang,
        final(f).hotkey == old(f).hotkey,
{
    let p = provider_for_index(i);
    f.provider = p;
    f.api_base = default_base_for(p);
    f.model = model_for_selection(p, 0);
}

/// The configuration record a save replaces: the form's fields, whole.
pub fn config_from_form(f: &SettingsForm) -> (c: Config)
    ensures
        c.openai_api_key == f.api_key,
        c.openai_model == f.model,
        c.target_lang == f.target_lang,
        c.hotkey == f.hotkey,
        c.api_base == f.api_base,
        c.provider == f.provider,
{
    Config {
        openai_api_key: f.api_key.clone(),
        openai_model: f.model.clone(),
        target_lang: f.target_lang.clone(),
        hotkey: f.hotkey.clone(),
        api_base: f.api_base.clone(),
        provider: f.provider,
    }
}

} // verus!
