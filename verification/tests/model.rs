use voice_transcribe::error::AppError;
use voice_transcribe::model::{
    check_downloaded_model, check_model_file, default_model_destination,
    default_model_destination_in, default_model_info_at, require_model_file, download_with_available_tool,
    first_download_tool, get_default_model_info, use_downloaded_model, DownloadStep, DownloadTool,
    ToolRun,
};
use voice_transcribe::settings::Settings;

#[test]
fn default_model_info() {
    if let Ok(info) = get_default_model_info() {
        assert_eq!(info.model_name, "ggml-base.en.bin");
        assert_eq!(info.size_label, "148 MB");
        assert!(info.destination_path.ends_with("/voice-transcribe/ggml-base.en.bin"));
        assert!(info.source_url.starts_with("https://huggingface.co/"));
        assert_eq!(Ok(info.destination_path), default_model_destination());
    }
}

#[test]
fn download_tries_curl_then_wget() {
    assert_eq!(first_download_tool(), DownloadTool::Curl);
    assert_eq!(
        download_with_available_tool(DownloadTool::Curl, ToolRun::NotInstalled),
        DownloadStep::Run(DownloadTool::Wget)
    );
    assert_eq!(
        download_with_available_tool(DownloadTool::Curl, ToolRun::Succeeded),
        DownloadStep::Finished(Ok(()))
    );
    assert_eq!(
        download_with_available_tool(DownloadTool::Wget, ToolRun::Succeeded),
        DownloadStep::Finished(Ok(()))
    );
}

#[test]
fn download_fails_without_tools_or_on_tool_error() {
    assert_eq!(
        download_with_available_tool(DownloadTool::Wget, ToolRun::NotInstalled),
        DownloadStep::Finished(Err(AppError::Io(
            "Neither curl nor wget is available for model download".to_string()
        )))
    );
    let e = AppError::Io("curl failed while downloading the model".to_string());
    assert_eq!(
        download_with_available_tool(DownloadTool::Curl, ToolRun::Failed(e.clone())),
        DownloadStep::Finished(Err(e))
    );
}

#[test]
fn empty_download_is_an_error() {
    assert_eq!(
        check_downloaded_model(0),
        Err(AppError::Io("Downloaded model file is empty".to_string()))
    );
    assert_eq!(check_downloaded_model(147_951_465), Ok(()));
}

#[test]
fn downloaded_model_becomes_the_configured_one() {
    let mut s = Settings::defaults_in(None);
    s.model_name = "other".to_string();
    use_downloaded_model(&mut s, "/d/voice-transcribe/ggml-base.en.bin");
    assert_eq!(s.model_name, "ggml-base.en.bin");
    assert_eq!(s.model_path, "/d/voice-transcribe/ggml-base.en.bin");
    assert_eq!(s.hotkey, "CmdOrCtrl+Shift+V");
}

#[test]
fn model_file_check_reports_missing_path() {
    assert_eq!(check_model_file("/models/a.bin", true), Ok(()));
    assert_eq!(
        check_model_file("/models/a.bin", false),
        Err(AppError::ModelNotFound("/models/a.bin".to_string()))
    );
    assert_eq!(
        require_model_file("/definitely/not/here/model.bin"),
        Err(AppError::ModelNotFound("/definitely/not/here/model.bin".to_string()))
    );
}

#[test]
fn model_destination_under_data_dir() {
    assert_eq!(
        default_model_destination_in(Some("/home/u/.local/share")),
        Ok("/home/u/.local/share/voice-transcribe/ggml-base.en.bin".to_string())
    );
    assert_eq!(
        default_model_destination_in(Some("/data/")),
        Ok("/data/voice-transcribe/ggml-base.en.bin".to_string())
    );
    assert_eq!(
        default_model_destination_in(None),
        Err(AppError::Io("Could not determine application data directory".to_string()))
    );
}

#[test]
fn model_info_at_destination() {
    let info = default_model_info_at("/d/voice-transcribe/ggml-base.en.bin".to_string(), true);
    assert_eq!(info.model_name, "ggml-base.en.bin");
    assert_eq!(info.size_label, "148 MB");
    assert_eq!(info.destination_path, "/d/voice-transcribe/ggml-base.en.bin");
    assert!(info.installed);
    assert!(!default_model_info_at(String::new(), false).installed);
}
