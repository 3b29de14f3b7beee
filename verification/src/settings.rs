//! User-configurable settings and the paths derived from the user's data directory.

use vstd::prelude::*;

use crate::constants::{APP_DATA_SUBDIR, DEFAULT_HOTKEY, DEFAULT_MODEL_FILE};
use crate::error::AppError;

verus! {

/// Which audio input device to record from.
#[derive(Clone, Debug, PartialEq, Eq)]
pub enum AudioInputSelection {
    /// The host's default input device.
    SystemDefault,
    /// The input device with this exact name.
    ByName(String),
}

/// Settings stored as a single JSON row.
#[derive(Clone, Debug, PartialEq, Eq)]
pub struct Settings {
    /// Global hotkey for push-to-talk (e.g. "CmdOrCtrl+Shift+V").
    pub hotkey: String,
    /// Full path to the GGML model file.
    pub model_path: String,
    /// Human-readable model name.
    pub model_name: String,
    /// Clipboard paste strategy: "auto", "standard" or "terminal".
    pub paste_mode: String,
    /// Selected audio input, if the user chose one.
    pub audio_input: Option<AudioInputSelection>,
    /// Whether to simulate the paste keystroke after copying.
    pub auto_paste: bool,
    /// Total number of words transcribed so far.
    pub total_words: u64,
    /// Schema version for future migrations.
    pub schema_version: u32,
}

/// A copy of an input selection.
pub fn copy_selection(a: &AudioInputSelection) -> (r: AudioInputSelection)
    ensures
        r == *a,
{
    match a {
        AudioInputSelection::SystemDefault => AudioInputSelection::SystemDefault,
        AudioInputSelection::ByName(n) => AudioInputSelection::ByName(n.clone()),
    }
}

/// A copy of an optional input selection.
pub fn copy_optional_selection(a: &Option<AudioInputSelection>) -> (r: Option<AudioInputSelection>)
    ensures
        r == *a,
{
    match a {
        Some(s) => Some(copy_selection(s)),
        None => None,
    }
}

impl Settings {
    /// A copy of these settings.
    pub fn duplicate(&self) -> (r: Settings)
        ensures
            r == *self,
    {
        Settings {
            hotkey: self.hotkey.clone(),
            model_path: self.model_path.clone(),
            model_name: self.model_name.clone(),
            paste_mode: self.paste_mode.clone(),
            audio_input: copy_optional_selection(&self.audio_input),
            auto_paste: self.auto_paste,
            total_words: self.total_words,
            schema_version: self.schema_version,
        }
    }
}

/// The current settings schema version.
pub fn current_schema() -> (v: u32)
    ensures
        v == 1,
{
    1
}

/// The default paste mode.
pub fn default_paste_mode() -> (m: String)
    ensures
        m@ == "auto"@,
{
    String::from_str("auto")
}

/// `base` joined with the relative path component `segment`, with '/' as the
/// separator, as `Path::join` forms it on Unix.
pub open spec fn join_path_spec(base: Seq<char>, segment: Seq<char>) -> Seq<char> {
    if base.len() == 0 || base.last() == '/' {
        base + segment
    } else {
        base + seq!['/'] + segment
    }
}

/// Joins the relative component `segment` onto `base`.
pub fn join_path(base: &str, segment: &str) -> (r: String)
    ensures
        r@ == join_path_spec(base@, segment@),
{
    let v = crate::text::chars_of(base);
    let mut r = String::from_str(base);
    if v.len() == 0 || v[v.len() - 1] == '/' {
        r.append(segment);
    } else {
        r.append("/");
        proof {
            reveal_strlit("/");
        }
        r.append(segment);
    }
    r
}

/// `dirs::data_dir()`: the user's data directory (on Linux `$XDG_DATA_HOME`
/// or `$HOME/.local/share`), converted lossily to a string. It depends on the
/// environment of the process, so nothing is stated about the result.
#[verifier::external_body]
pub(crate) fn user_data_dir() -> (d: Option<String>) {
    dirs::data_dir().map(|p| p.to_string_lossy().to_string())
}

/// The application data directory under the given user data directory.
pub open spec fn app_data_dir_spec(data_dir: Seq<char>) -> Seq<char> {
    join_path_spec(data_dir, APP_DATA_SUBDIR@)
}

/// The default model path for a given user data directory, or the bare file
/// name when there is none.
pub open spec fn default_model_path_spec(data_dir: Option<Seq<char>>) -> Seq<char> {
    match data_dir {
        Some(d) => join_path_spec(app_data_dir_spec(d), DEFAULT_MODEL_FILE@),
        None => DEFAULT_MODEL_FILE@,
    }
}

/// The application data directory below a known (or unknown) user data directory.
pub fn app_data_dir_in(data_dir: Option<&str>) -> (r: Result<String, AppError>)
    ensures
        match data_dir {
            Some(d) => r matches Ok(p) && p@ == app_data_dir_spec(d@),
            None => r matches Err(AppError::Io(m)) && m@
                == "Could not determine application data directory"@,
        },
{
    match data_dir {
        Some(d) => Ok(join_path(d, APP_DATA_SUBDIR)),
        None => Err(
            AppError::Io(String::from_str("Could not determine application data directory")),
        ),
    }
}

/// The application data directory of this user.
pub fn app_data_dir() -> (r: Result<String, AppError>)
    ensures
        r matches Ok(p) ==> exists|d: Seq<char>| p@ == app_data_dir_spec(d),
        r matches Err(e) ==> e matches AppError::Io(m) && m@
            == "Could not determine application data directory"@,
{
    let d = user_data_dir();
    match d {
        Some(d) => app_data_dir_in(Some(d.as_str())),
        None => app_data_dir_in(None),
    }
}

/// The default model path for a known (or unknown) user data directory.
pub fn default_model_path_in(data_dir: Option<&str>) -> (p: String)
    ensures
        p@ == default_model_path_spec(
            match data_dir {
                Some(d) => Some(d@),
                None => None,
            },
        ),
{
    match data_dir {
        Some(d) => {
            let dir = join_path(d, APP_DATA_SUBDIR);
            join_path(dir.as_str(), DEFAULT_MODEL_FILE)
        },
        None => String::from_str(DEFAULT_MODEL_FILE),
    }
}

/// The default settings, given the user data directory.
pub open spec fn default_settings_spec(s: Settings, data_dir: Option<Seq<char>>) -> bool {
    &&& s.hotkey@ == DEFAULT_HOTKEY@
    &&& s.model_path@ == default_model_path_spec(data_dir)
    &&& s.model_name@ == DEFAULT_MODEL_FILE@
    &&& s.paste_mode@ == "auto"@
    &&& s.audio_input == None::<AudioInputSelection>
    &&& s.auto_paste
    &&& s.total_words == 0
    &&& s.schema_version == 1
}

impl Settings {
    /// The default settings for a known (or unknown) user data directory.
    pub fn defaults_in(data_dir: Option<&str>) -> (s: Settings)
        ensures
            default_settings_spec(
                s,
                match data_dir {
                    Some(d) => Some(d@),
                    None => None,
                },
            ),
    {
        Settings {
            hotkey: String::from_str(DEFAULT_HOTKEY),
            model_path: default_model_path_in(data_dir),
            model_name: String::from_str(DEFAULT_MODEL_FILE),
            paste_mode: default_paste_mode(),
            audio_input: None,
            auto_paste: true,
            total_words: 0,
            schema_version: current_schema(),
        }
    }
}

impl Default for Settings {
    /// The default settings, with the model expected under this user's data directory.
    fn default() -> (s: Settings)
        ensures
            exists|d: Option<Seq<char>>| default_settings_spec(s, d),
    {
        let d = user_data_dir();
        let s = match &d {
            Some(d) => Settings::defaults_in(Some(d.as_str())),
            None => Settings::defaults_in(None),
        };
        proof {
            match d {
                Some(dd) => assert(default_settings_spec(s, Some(dd@))),
                None => assert(default_settings_spec(s, None)),
            }
        }
        s
    }
}

} // verus!
