//! Changing the settings from the front end: validation of the request, the
//! new settings, and what happens when the new hotkey cannot be registered.

use vstd::prelude::*;

use crate::dto::{UpdateSettingsRequest, UpdateSettingsResponse};
use crate::error::{prefixed, AppError};
use crate::model::path_exists;
use crate::settings::Settings;
use crate::text::{chars_eq_str, chars_of};

verus! {

/// The paste modes a user may choose.
pub open spec fn is_valid_paste_mode(m: Seq<char>) -> bool {
    m == "auto"@ || m == "standard"@ || m == "terminal"@
}

/// Which check a settings request fails first, if any: an empty hotkey, a
/// model path that names no file, or an unknown paste mode.
pub open spec fn request_error_spec(
    request: UpdateSettingsRequest,
    model_path_exists: bool,
    r: Result<(), AppError>,
) -> bool {
    if request.hotkey matches Some(h) && h@.len() == 0 {
        r matches Err(AppError::SettingsInvalid(m)) && m@ == "Hotkey cannot be empty"@
    } else if request.model_path matches Some(p) && p@.len() > 0 && !model_path_exists {
        r matches Err(AppError::ModelNotFound(m)) && m@ == request.model_path->Some_0@
    } else if request.paste_mode matches Some(m) && !is_valid_paste_mode(m@) {
        r matches Err(AppError::SettingsInvalid(msg)) && msg@ == "Invalid paste mode: "@
            + request.paste_mode->Some_0@
    } else {
        r is Ok
    }
}

/// Checks a settings request, given whether its model path (if any) exists.
pub fn validate_settings_request(request: &UpdateSettingsRequest, model_path_exists: bool) -> (r:
    Result<(), AppError>)
    ensures
        request_error_spec(*request, model_path_exists, r),
{
    if let Some(h) = &request.hotkey {
        if h.as_str().is_empty() {
            return Err(AppError::SettingsInvalid(String::from_str("Hotkey cannot be empty")));
        }
    }
    if let Some(p) = &request.model_path {
        if !p.as_str().is_empty() && !model_path_exists {
            return Err(AppError::ModelNotFound(p.clone()));
        }
    }
    if let Some(m) = &request.paste_mode {
        let v = chars_of(m.as_str());
        if !(chars_eq_str(&v, "auto") || chars_eq_str(&v, "standard") || chars_eq_str(
            &v,
            "terminal",
        )) {
            return Err(AppError::SettingsInvalid(prefixed("Invalid paste mode: ", m.as_str())));
        }
    }
    Ok(())
}

/// Settings with a request applied, and the hotkey change it makes.
#[derive(Clone, Debug, PartialEq, Eq)]
pub struct PreparedUpdate {
    /// The settings with every field of the request applied.
    pub settings: Settings,
    /// The (previous, new) hotkey, when the request changes the hotkey.
    pub hotkey_change: Option<(String, String)>,
}

/// `new` replaces `old` when present.
pub open spec fn updated<T>(old: T, new: Option<T>) -> T {
    match new {
        Some(v) => v,
        None => old,
    }
}

/// The settings after applying a request: each present field replaces the
/// current one; the hotkey change is recorded when the hotkey differs.
pub open spec fn applied_spec(current: Settings, request: UpdateSettingsRequest, p: PreparedUpdate) -> bool {
    &&& p.settings.hotkey == updated(current.hotkey, request.hotkey)
    &&& p.settings.model_path == updated(current.model_path, request.model_path)
    &&& p.settings.model_name == updated(current.model_name, request.model_name)
    &&& p.settings.paste_mode == updated(current.paste_mode, request.paste_mode)
    &&& p.settings.audio_input == match request.audio_input {
        Some(a) => Some(a),
        None => current.audio_input,
    }
    &&& p.settings.auto_paste == current.auto_paste
    &&& p.settings.total_words == current.total_words
    &&& p.settings.schema_version == current.schema_version
    &&& match request.hotkey {
        Some(h) => if h@ != current.hotkey@ {
            p.hotkey_change matches Some((prev, new)) && prev == current.hotkey && new == h
        } else {
            p.hotkey_change is None
        },
        None => p.hotkey_change is None,
    }
}

/// A request that names no field changes nothing, and a request that sets
/// the hotkey to its current value records no hotkey change.
pub proof fn lemma_no_op_request(current: Settings, request: UpdateSettingsRequest, p: PreparedUpdate)
    requires
        applied_spec(current, request, p),
        request.model_path is None,
        request.model_name is None,
        request.paste_mode is None,
        request.audio_input is None,
        request.hotkey is None || request.hotkey == Some(current.hotkey),
    ensures
        p.settings == current,
        p.hotkey_change is None,
{
}

/// Applies a (validated) request to the current settings.
pub fn apply_settings_request(current: Settings, request: UpdateSettingsRequest) -> (p:
    PreparedUpdate)
    ensures
        applied_spec(current, request, p),
{
    let mut settings = current;
    let mut hotkey_change: Option<(String, String)> = None;
    if let Some(hotkey) = request.hotkey {
        let previous = settings.hotkey;
        let changed = !(hotkey == previous);
        settings.hotkey = hotkey.clone();
        if changed {
            hotkey_change = Some((previous, hotkey));
        }
    }
    if let Some(model_path) = request.model_path {
        settings.model_path = model_path;
    }
    if let Some(model_name) = request.model_name {
        settings.model_name = model_name;
    }
    if let Some(paste_mode) = request.paste_mode {
        settings.paste_mode = paste_mode;
    }
    if let Some(audio_input) = request.audio_input {
        settings.audio_input = Some(audio_input);
    }
    PreparedUpdate { settings, hotkey_change }
}

/// Whether a prepared update passed or failed validation, with its error.
pub open spec fn validation_outcome(r: Result<PreparedUpdate, AppError>) -> Result<(), AppError> {
    match r {
        Ok(_) => Ok(()),
        Err(e) => Err(e),
    }
}

/// Validates a request, given whether its model path (if any) exists, and
/// applies it to the current settings when it passes.
pub fn prepare_settings_update_given(
    current: Settings,
    request: UpdateSettingsRequest,
    model_path_exists: bool,
) -> (r: Result<PreparedUpdate, AppError>)
    ensures
        request_error_spec(request, model_path_exists, validation_outcome(r)),
        r matches Ok(p) ==> applied_spec(current, request, p),
{
    match validate_settings_request(&request, model_path_exists) {
        Err(e) => Err(e),
        Ok(()) => Ok(apply_settings_request(current, request)),
    }
}

/// Validates a request against the disk and applies it to the current settings.
/// The request is refused, in this order, for an empty hotkey, a non-empty model
/// path with no file, or an unknown paste mode; otherwise it is applied.
pub fn prepare_settings_update(current: Settings, request: UpdateSettingsRequest) -> (r: Result<
    PreparedUpdate,
    AppError,
>)
    ensures
        exists|model_path_exists: bool|
            request_error_spec(request, model_path_exists, #[trigger] validation_outcome(r)),
        r matches Ok(p) ==> applied_spec(current, request, p),
        request.hotkey matches Some(h) && h@.len() == 0 ==> (r matches Err(
            AppError::SettingsInvalid(m),
        ) && m@ == "Hotkey cannot be empty"@),
        (request.hotkey is None || request.hotkey->Some_0@.len() > 0) && (
        request.model_path is None || request.model_path->Some_0@.len() == 0) && (
        request.paste_mode is None || is_valid_paste_mode(request.paste_mode->Some_0@))
            ==> r is Ok,
{
    let exists = match &request.model_path {
        Some(p) => path_exists(p.as_str()),
        None => false,
    };
    prepare_settings_update_given(current, request, exists)
}

/// What became of registering a changed hotkey.
#[derive(Clone, Copy, Debug, PartialEq, Eq)]
pub enum HotkeyRegistration {
    /// The hotkey did not change; nothing was registered.
    Unchanged,
    /// The new hotkey was registered.
    Registered,
    /// The new hotkey could not be registered; the previous one was restored.
    RolledBack,
    /// Neither the new nor the previous hotkey could be registered.
    RollbackFailed,
}

/// How a settings change ends.
#[derive(Debug, PartialEq, Eq)]
pub enum UpdateCompletion {
    /// Answer at once, without saving.
    Respond(UpdateSettingsResponse),
    /// Save these settings; on success clear the last error and answer.
    Persist { settings: Settings, response: UpdateSettingsResponse },
}

/// The resolution of a settings change.
#[derive(Debug, PartialEq, Eq)]
pub struct SettingsUpdatePlan {
    /// What the settings in memory become.
    pub in_memory: Settings,
    /// The error to show the user, set before the change completes.
    pub conflict_error: Option<String>,
    /// How the change ends.
    pub completion: UpdateCompletion,
}

/// The message shown when a hotkey is already taken.
pub open spec fn conflict_message(new_hotkey: Seq<char>) -> Seq<char> {
    "Hotkey conflict: "@ + new_hotkey + " is already in use"@
}

/// The answer when the previous hotkey was restored.
pub open spec fn rollback_message(new_hotkey: Seq<char>, previous: Seq<char>) -> Seq<char> {
    "Hotkey '"@ + new_hotkey + "' is unavailable; restored '"@ + previous + "'"@
}

/// The resolution of a prepared change after the hotkey registration:
/// a registered (or unchanged) hotkey saves the new settings; a taken hotkey
/// puts the previous one back in memory and reports the conflict; if the
/// previous one was restored nothing is saved, otherwise the new settings are
/// saved and a restart is required.
pub open spec fn plan_spec(
    p: PreparedUpdate,
    registration: HotkeyRegistration,
    plan: SettingsUpdatePlan,
) -> bool {
    match (p.hotkey_change, registration) {
        (Some((prev, new)), HotkeyRegistration::RolledBack) => {
            &&& plan.in_memory == Settings { hotkey: prev, ..p.settings }
            &&& plan.conflict_error matches Some(m) && m@ == conflict_message(new@)
            &&& plan.completion matches UpdateCompletion::Respond(r) && !r.success
                && !r.requires_restart && r.message@ == rollback_message(new@, prev@)
        },
        (Some((prev, new)), HotkeyRegistration::RollbackFailed) => {
            &&& plan.in_memory == Settings { hotkey: prev, ..p.settings }
            &&& plan.conflict_error matches Some(m) && m@ == conflict_message(new@)
            &&& plan.completion matches UpdateCompletion::Persist { settings, response }
                && settings == p.settings && response.success && response.requires_restart
                && response.message@ == "Settings updated"@
        },
        _ => {
            &&& plan.in_memory == p.settings
            &&& plan.conflict_error is None
            &&& plan.completion matches UpdateCompletion::Persist { settings, response }
                && settings == p.settings && response.success && !response.requires_restart
                && response.message@ == "Settings updated"@
        },
    }
}

/// The plan that saves `settings` as they are.
fn persist_plan(settings: Settings) -> (plan: SettingsUpdatePlan)
    ensures
        plan.in_memory == settings,
        plan.conflict_error is None,
        plan.completion matches UpdateCompletion::Persist { settings: s, response } && s
            == settings && response.success && !response.requires_restart && response.message@
            == "Settings updated"@,
{
    let in_memory = settings.duplicate();
    SettingsUpdatePlan {
        in_memory,
        conflict_error: None,
        completion: UpdateCompletion::Persist {
            settings,
            response: UpdateSettingsResponse {
                success: true,
                message: String::from_str("Settings updated"),
                requires_restart: false,
            },
        },
    }
}

/// Resolves a prepared settings change once the hotkey registration is known.
pub fn plan_settings_update(p: PreparedUpdate, registration: HotkeyRegistration) -> (plan:
    SettingsUpdatePlan)
    ensures
        plan_spec(p, registration, plan),
{
    let PreparedUpdate { settings, hotkey_change } = p;
    match hotkey_change {
        Some((prev, new)) => {
            match registration {
                HotkeyRegistration::RolledBack | HotkeyRegistration::RollbackFailed => {
                    let mut conflict = prefixed("Hotkey conflict: ", new.as_str());
                    conflict.append(" is already in use");
                    let in_memory = Settings { hotkey: prev.clone(), ..settings.duplicate() };
                    let completion = if let HotkeyRegistration::RolledBack = registration {
                        let mut message = prefixed("Hotkey '", new.as_str());
                        message.append("' is unavailable; restored '");
                        message.append(prev.as_str());
                        message.append("'");
                        UpdateCompletion::Respond(
                            UpdateSettingsResponse { success: false, message, requires_restart: false },
                        )
                    } else {
                        UpdateCompletion::Persist {
                            settings,
                            response: UpdateSettingsResponse {
                                success: true,
                                message: String::from_str("Settings updated"),
                                requires_restart: true,
                            },
                        }
                    };
                    SettingsUpdatePlan { in_memory, conflict_error: Some(conflict), completion }
                },
                _ => persist_plan(settings),
            }
        },
        None => persist_plan(settings),
    }
}

} // verus!
