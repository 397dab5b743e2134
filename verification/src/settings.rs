//! The user's settings, as far as the library reads them.

use vstd::prelude::*;

verus! {

/// The settings of the application.
#[derive(Clone, Debug, PartialEq, Eq)]
pub struct AppSettings {
    /// The transcription provider.
    pub provider: String,
    pub openai_api_key: String,
    pub google_api_key: String,
    /// The language given to the second provider.
    pub google_language: String,
    /// The name of the preferred input device; empty for the platform's
    /// default device.
    pub input_device_name: String,
    /// Whether the panel is shown.
    pub panel_visible: bool,
}

impl Default for AppSettings {
    /// The settings of a fresh installation: the first provider, no keys,
    /// US English, the default input device, the panel shown.
    fn default() -> (settings: AppSettings)
        ensures
            settings.provider@ == "openai"@,
            settings.openai_api_key@ == Seq::<char>::empty(),
            settings.google_api_key@ == Seq::<char>::empty(),
            settings.google_language@ == "en-US"@,
            settings.input_device_name@ == Seq::<char>::empty(),
            settings.panel_visible,
    {
        AppSettings {
            provider: "openai".to_owned(),
            openai_api_key: String::new(),
            google_api_key: String::new(),
            google_language: "en-US".to_owned(),
            input_device_name: String::new(),
            panel_visible: true,
        }
    }
}

} // verus!
