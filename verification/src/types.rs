//! Preferences and choices that the other modules share.

use vstd::prelude::*;

verus! {

/// Where the block of hotwords goes in a style prompt.
pub const HOTWORDS_PLACEHOLDER: &'static str = "{{HOTWORDS}}";

/// Where the block of screen text goes in a style prompt.
pub const SCREEN_CONTEXT_PLACEHOLDER: &'static str = "{{SCREEN_CONTEXT}}";

/// The platform that the application runs on.
#[derive(Debug, Clone, Copy, PartialEq, Eq, Structural)]
pub enum Platform {
    Windows,
    MacOs,
    Other,
}

/// Which Chinese script the output should use.
#[derive(Debug, Clone, Copy, PartialEq, Eq, Structural)]
pub enum ChineseScriptPreference {
    Auto,
    Simplified,
    Traditional,
}

/// Which language the output should use.
#[derive(Debug, Clone, Copy, PartialEq, Eq, Structural)]
pub enum OutputLanguagePreference {
    Auto,
    ZhCn,
    ZhTw,
    En,
    Ja,
    Ko,
}

/// The preferences that the screen context reads.
#[derive(Debug, Clone)]
pub struct UserPreferences {
    /// Whether the screen is read at all.
    pub screen_context_enabled: bool,
    /// The id of the chosen recognition engine.
    pub active_ocr_provider: String,
    /// The directory that holds the models; empty for the default one.
    pub ocr_models_base_dir: String,
    /// The prefix that models are downloaded from; empty for the default addresses.
    pub ocr_download_mirror: String,
}

/// The preferences, with their texts as sequences of characters.
pub struct UserPreferencesView {
    pub screen_context_enabled: bool,
    pub active_ocr_provider: Seq<char>,
    pub ocr_models_base_dir: Seq<char>,
    pub ocr_download_mirror: Seq<char>,
}

impl View for UserPreferences {
    type V = UserPreferencesView;

    open spec fn view(&self) -> UserPreferencesView {
        UserPreferencesView {
            screen_context_enabled: self.screen_context_enabled,
            active_ocr_provider: self.active_ocr_provider@,
            ocr_models_base_dir: self.ocr_models_base_dir@,
            ocr_download_mirror: self.ocr_download_mirror@,
        }
    }
}

impl UserPreferences {
    /// The preferences of a fresh installation: the screen is not read, the engine is
    /// RapidOCR on Windows and none elsewhere, and directory and mirror are the
    /// default ones.
    pub fn defaults(platform: Platform) -> (prefs: UserPreferences)
        ensures
            !prefs.screen_context_enabled,
            prefs.active_ocr_provider@ == (if platform == Platform::Windows {
                "rapidocr"@
            } else {
                "disabled"@
            }),
            prefs.ocr_models_base_dir@.len() == 0,
            prefs.ocr_download_mirror@.len() == 0,
    {
        let provider = if platform == Platform::Windows {
            "rapidocr".to_string()
        } else {
            "disabled".to_string()
        };
        UserPreferences {
            screen_context_enabled: false,
            active_ocr_provider: provider,
            ocr_models_base_dir: String::new(),
            ocr_download_mirror: String::new(),
        }
    }
}

} // verus!
