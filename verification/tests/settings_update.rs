use voice_transcribe::dto::{UpdateSettingsRequest, UpdateSettingsResponse};
use voice_transcribe::error::AppError;
use voice_transcribe::settings::{AudioInputSelection, Settings};
use voice_transcribe::settings_update::{
    prepare_settings_update_given,
    apply_settings_request, plan_settings_update, prepare_settings_update,
    validate_settings_request, HotkeyRegistration, UpdateCompletion,
};

fn empty_request() -> UpdateSettingsRequest {
    UpdateSettingsRequest {
        hotkey: None,
        model_path: None,
        model_name: None,
        paste_mode: None,
        audio_input: None,
    }
}

#[test]
fn empty_hotkey_is_rejected_first() {
    let req = UpdateSettingsRequest {
        hotkey: Some(String::new()),
        paste_mode: Some("bogus".to_string()),
        ..empty_request()
    };
    assert_eq!(
        validate_settings_request(&req, false),
        Err(AppError::SettingsInvalid("Hotkey cannot be empty".to_string()))
    );
}

#[test]
fn missing_model_file_is_rejected() {
    let req = UpdateSettingsRequest { model_path: Some("/no/such/model.bin".to_string()), ..empty_request() };
    assert_eq!(
        validate_settings_request(&req, false),
        Err(AppError::ModelNotFound("/no/such/model.bin".to_string()))
    );
    assert_eq!(validate_settings_request(&req, true), Ok(()));
    assert_eq!(
        prepare_settings_update(Settings::defaults_in(None), req).map(|p| p.settings.model_path),
        Err(AppError::ModelNotFound("/no/such/model.bin".to_string()))
    );
    let cleared = UpdateSettingsRequest { model_path: Some(String::new()), ..empty_request() };
    assert_eq!(validate_settings_request(&cleared, false), Ok(()));
}

#[test]
fn unknown_paste_mode_is_rejected() {
    let req = UpdateSettingsRequest { paste_mode: Some("fast".to_string()), ..empty_request() };
    assert_eq!(
        validate_settings_request(&req, false),
        Err(AppError::SettingsInvalid("Invalid paste mode: fast".to_string()))
    );
    for mode in ["auto", "standard", "terminal"] {
        let req = UpdateSettingsRequest { paste_mode: Some(mode.to_string()), ..empty_request() };
        assert_eq!(validate_settings_request(&req, false), Ok(()));
    }
}

#[test]
fn request_fields_replace_settings() {
    let current = Settings::defaults_in(None);
    let req = UpdateSettingsRequest {
        hotkey: Some("Ctrl+Alt+R".to_string()),
        model_name: Some("tiny".to_string()),
        paste_mode: Some("terminal".to_string()),
        audio_input: Some(AudioInputSelection::ByName("USB".to_string())),
        ..empty_request()
    };
    let p = apply_settings_request(current.clone(), req);
    assert_eq!(p.settings.hotkey, "Ctrl+Alt+R");
    assert_eq!(p.settings.model_name, "tiny");
    assert_eq!(p.settings.model_path, current.model_path);
    assert_eq!(p.settings.paste_mode, "terminal");
    assert_eq!(p.settings.audio_input, Some(AudioInputSelection::ByName("USB".to_string())));
    assert_eq!(
        p.hotkey_change,
        Some(("CmdOrCtrl+Shift+V".to_string(), "Ctrl+Alt+R".to_string()))
    );
}

#[test]
fn same_hotkey_is_no_change() {
    let current = Settings::defaults_in(None);
    let req = UpdateSettingsRequest { hotkey: Some(current.hotkey.clone()), ..empty_request() };
    let p = apply_settings_request(current.clone(), req);
    assert_eq!(p.hotkey_change, None);
    assert_eq!(p.settings, current);
}

#[test]
fn registered_hotkey_saves_settings() {
    let current = Settings::defaults_in(None);
    let req = UpdateSettingsRequest { hotkey: Some("F9".to_string()), ..empty_request() };
    let p = apply_settings_request(current, req);
    let plan = plan_settings_update(p.clone(), HotkeyRegistration::Registered);
    assert_eq!(plan.in_memory, p.settings);
    assert_eq!(plan.conflict_error, None);
    assert_eq!(
        plan.completion,
        UpdateCompletion::Persist {
            settings: p.settings,
            response: UpdateSettingsResponse {
                success: true,
                message: "Settings updated".to_string(),
                requires_restart: false
            }
        }
    );
}

#[test]
fn taken_hotkey_is_rolled_back_without_saving() {
    let current = Settings::defaults_in(None);
    let req = UpdateSettingsRequest {
        hotkey: Some("F9".to_string()),
        model_name: Some("tiny".to_string()),
        ..empty_request()
    };
    let p = apply_settings_request(current, req);
    let plan = plan_settings_update(p, HotkeyRegistration::RolledBack);
    assert_eq!(plan.in_memory.hotkey, "CmdOrCtrl+Shift+V");
    assert_eq!(plan.in_memory.model_name, "tiny");
    assert_eq!(plan.conflict_error, Some("Hotkey conflict: F9 is already in use".to_string()));
    assert_eq!(
        plan.completion,
        UpdateCompletion::Respond(UpdateSettingsResponse {
            success: false,
            message: "Hotkey 'F9' is unavailable; restored 'CmdOrCtrl+Shift+V'".to_string(),
            requires_restart: false
        })
    );
}

#[test]
fn failed_rollback_saves_and_requires_restart() {
    let current = Settings::defaults_in(None);
    let req = UpdateSettingsRequest { hotkey: Some("F9".to_string()), ..empty_request() };
    let p = apply_settings_request(current, req);
    let plan = plan_settings_update(p.clone(), HotkeyRegistration::RollbackFailed);
    assert_eq!(plan.in_memory.hotkey, "CmdOrCtrl+Shift+V");
    match plan.completion {
        UpdateCompletion::Persist { settings, response } => {
            assert_eq!(settings.hotkey, "F9");
            assert!(response.success);
            assert!(response.requires_restart);
        }
        other => panic!("unexpected completion {:?}", other),
    }
}

#[test]
fn request_is_refused_given_the_disk_answer() {
    let current = Settings::defaults_in(Some("/d"));
    let req = |model_path: Option<&str>, paste_mode: Option<&str>| UpdateSettingsRequest {
        hotkey: None,
        model_path: model_path.map(str::to_string),
        model_name: None,
        paste_mode: paste_mode.map(str::to_string),
        audio_input: None,
    };
    assert_eq!(
        prepare_settings_update_given(current.clone(), req(Some("/m.bin"), None), false),
        Err(AppError::ModelNotFound("/m.bin".to_string()))
    );
    let p = prepare_settings_update_given(current.clone(), req(Some("/m.bin"), None), true)
        .expect("existing model is accepted");
    assert_eq!(p.settings.model_path, "/m.bin");
    assert_eq!(
        prepare_settings_update_given(current.clone(), req(None, Some("bogus")), true),
        Err(AppError::SettingsInvalid("Invalid paste mode: bogus".to_string()))
    );
    // the missing model is reported before the unknown paste mode
    assert_eq!(
        prepare_settings_update_given(current, req(Some("/m.bin"), Some("bogus")), false),
        Err(AppError::ModelNotFound("/m.bin".to_string()))
    );
}
