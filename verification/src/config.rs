//! The configuration record: provider, model, credential and base URL.
use vstd::prelude::*;

verus! {

use vstd::string::StringExecFns;

/// Mathematical view of a configuration record: its four field contents.
#[verifier::ext_equal]
pub struct SettingsView {
    pub provider: Seq<char>,
    pub model: Seq<char>,
    pub api_key: Seq<char>,
    pub base_url: Seq<char>,
}

/// The configuration record. All four fields are always present; any of
/// them may be the empty string.
pub struct Settings {
    pub provider: String,
    pub model: String,
    pub api_key: String,
    pub base_url: String,
}

impl View for Settings {
    type V = SettingsView;

    open spec fn view(&self) -> SettingsView {
        SettingsView {
            provider: self.provider@,
            model: self.model@,
            api_key: self.api_key@,
            base_url: self.base_url@,
        }
    }
}

impl Settings {
    pub fn new(provider: String, model: String, api_key: String, base_url: String) -> (s:
        Settings)
        ensures
            s@ == (SettingsView {
                provider: provider@,
                model: model@,
                api_key: api_key@,
                base_url: base_url@,
            }),
    {
        Settings { provider, model, api_key, base_url }
    }

    /// The placeholder record written when no configuration exists yet.
    pub fn placeholder() -> (s: Settings)
        ensures
            s@.provider == "openai"@,
            s@.model == "gpt-4o-mini"@,
            s@.api_key == "sk-your-api-key"@,
            s@.base_url == "https://api.openai.com/v1"@,
    {
        Settings {
            provider: String::from_str("openai"),
            model: String::from_str("gpt-4o-mini"),
            api_key: String::from_str("sk-your-api-key"),
            base_url: String::from_str("https://api.openai.com/v1"),
        }
    }
}

} // verus!
