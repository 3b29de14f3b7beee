//! The default Whisper model: where it goes, whether it is installed, and how
//! its download proceeds.

use vstd::prelude::*;

use crate::constants::{DEFAULT_MODEL_FILE, DEFAULT_MODEL_SIZE_LABEL, DEFAULT_MODEL_URL};
use crate::error::AppError;
use crate::settings::{app_data_dir_in, app_data_dir_spec, join_path, join_path_spec, user_data_dir, Settings};

verus! {

/// Checks a model file to load, given whether it exists on disk.
pub fn check_model_file(model_path: &str, exists: bool) -> (r: Result<(), AppError>)
    ensures
        exists ==> r is Ok,
        !exists ==> (r matches Err(AppError::ModelNotFound(m)) && m@ == model_path@),
{
    if exists {
        Ok(())
    } else {
        Err(AppError::ModelNotFound(String::from_str(model_path)))
    }
}

/// Checks that the model file to load exists.
pub fn require_model_file(model_path: &str) -> (r: Result<(), AppError>)
    ensures
        r matches Err(e) ==> (e matches AppError::ModelNotFound(m) && m@ == model_path@),
{
    check_model_file(model_path, path_exists(model_path))
}

/// Information about the built-in model download option.
#[derive(Clone, Debug, PartialEq, Eq)]
pub struct ModelDownloadInfo {
    pub model_name: String,
    pub size_label: String,
    pub destination_path: String,
    pub source_url: String,
    pub installed: bool,
}

/// The path of the default model under the user data directory `data_dir`.
pub open spec fn model_destination_spec(data_dir: Seq<char>) -> Seq<char> {
    join_path_spec(app_data_dir_spec(data_dir), DEFAULT_MODEL_FILE@)
}

/// Where the default model is stored for a known (or unknown) user data directory.
pub fn default_model_destination_in(data_dir: Option<&str>) -> (r: Result<String, AppError>)
    ensures
        match data_dir {
            Some(d) => r matches Ok(p) && p@ == model_destination_spec(d@),
            None => r matches Err(AppError::Io(m)) && m@
                == "Could not determine application data directory"@,
        },
{
    let dir = app_data_dir_in(data_dir)?;
    Ok(join_path(dir.as_str(), DEFAULT_MODEL_FILE))
}

/// Where the default model is stored: inside the application data directory.
pub fn default_model_destination() -> (r: Result<String, AppError>)
    ensures
        r matches Ok(p) ==> exists|d: Seq<char>| p@ == model_destination_spec(d),
        r matches Err(e) ==> e matches AppError::Io(m) && m@
            == "Could not determine application data directory"@,
{
    let d = user_data_dir();
    match d {
        Some(d) => default_model_destination_in(Some(d.as_str())),
        None => default_model_destination_in(None),
    }
}

/// `std::path::Path::exists`: whether a file system entry exists at the path.
/// It depends on the disk, so nothing is stated about the result.
#[verifier::external_body]
pub(crate) fn path_exists(p: &str) -> (b: bool) {
    std::path::Path::new(p).exists()
}

/// The download information of the default model stored at `destination`.
pub open spec fn model_info_spec(info: ModelDownloadInfo, destination: Seq<char>) -> bool {
    &&& info.model_name@ == DEFAULT_MODEL_FILE@
    &&& info.size_label@ == DEFAULT_MODEL_SIZE_LABEL@
    &&& info.destination_path@ == destination
    &&& info.source_url@ == DEFAULT_MODEL_URL@
}

/// The download information of the default model stored at `destination`,
/// given whether a file is already there.
pub fn default_model_info_at(destination: String, installed: bool) -> (info: ModelDownloadInfo)
    ensures
        model_info_spec(info, destination@),
        info.installed == installed,
{
    ModelDownloadInfo {
        model_name: String::from_str(DEFAULT_MODEL_FILE),
        size_label: String::from_str(DEFAULT_MODEL_SIZE_LABEL),
        destination_path: destination,
        source_url: String::from_str(DEFAULT_MODEL_URL),
        installed,
    }
}

/// Information about the default model download: name, size, source,
/// destination, and whether a file is already there.
pub fn get_default_model_info() -> (r: Result<ModelDownloadInfo, AppError>)
    ensures
        r matches Ok(info) ==> exists|d: Seq<char>|
            model_info_spec(info, #[trigger] model_destination_spec(d)),
        r matches Err(e) ==> e matches AppError::Io(m) && m@
            == "Could not determine application data directory"@,
{
    let destination_path = default_model_destination()?;
    let installed = path_exists(destination_path.as_str());
    Ok(default_model_info_at(destination_path, installed))
}

/// A command-line tool that can download the model.
#[derive(Clone, Copy, Debug, PartialEq, Eq)]
pub enum DownloadTool {
    Curl,
    Wget,
}

/// What running a download tool gave.
#[derive(Clone, Debug, PartialEq, Eq)]
pub enum ToolRun {
    /// The tool downloaded the file.
    Succeeded,
    /// The tool is not installed.
    NotInstalled,
    /// The tool ran and failed, or could not be started.
    Failed(AppError),
}

/// What to do next in a model download.
#[derive(Debug, PartialEq, Eq)]
pub enum DownloadStep {
    /// Run this tool.
    Run(DownloadTool),
    /// The download is over.
    Finished(Result<(), AppError>),
}

/// The first tool to try.
pub fn first_download_tool() -> (t: DownloadTool)
    ensures
        t == DownloadTool::Curl,
{
    DownloadTool::Curl
}

/// Next step after running `tool`: curl first, then wget; the first success
/// ends the download, a failure ends it with that error, and when neither
/// tool is installed the download fails as not found.
pub fn download_with_available_tool(tool: DownloadTool, run: ToolRun) -> (step: DownloadStep)
    ensures
        run == ToolRun::Succeeded ==> step == DownloadStep::Finished(Ok(())),
        run matches ToolRun::Failed(e) ==> step == DownloadStep::Finished(Err(e)),
        run == ToolRun::NotInstalled && tool == DownloadTool::Curl ==> step == DownloadStep::Run(
            DownloadTool::Wget,
        ),
        run == ToolRun::NotInstalled && tool == DownloadTool::Wget ==> (step matches DownloadStep::Finished(
            Err(AppError::Io(m)),
        ) && m@ == "Neither curl nor wget is available for model download"@),
{
    match run {
        ToolRun::Succeeded => DownloadStep::Finished(Ok(())),
        ToolRun::Failed(e) => DownloadStep::Finished(Err(e)),
        ToolRun::NotInstalled => match tool {
            DownloadTool::Curl => DownloadStep::Run(DownloadTool::Wget),
            DownloadTool::Wget => DownloadStep::Finished(
                Err(
                    AppError::Io(
                        String::from_str("Neither curl nor wget is available for model download"),
                    ),
                ),
            ),
        },
    }
}

/// Checks the size of the downloaded model file: an empty file is an error.
pub fn check_downloaded_model(len: u64) -> (r: Result<(), AppError>)
    ensures
        len > 0 ==> r is Ok,
        len == 0 ==> (r matches Err(AppError::Io(m)) && m@ == "Downloaded model file is empty"@),
{
    if len == 0 {
        Err(AppError::Io(String::from_str("Downloaded model file is empty")))
    } else {
        Ok(())
    }
}

/// Points the settings at the freshly downloaded default model.
pub fn use_downloaded_model(settings: &mut Settings, destination: &str)
    ensures
        final(settings).model_name@ == DEFAULT_MODEL_FILE@,
        final(settings).model_path@ == destination@,
        final(settings).hotkey == old(settings).hotkey,
        final(settings).paste_mode == old(settings).paste_mode,
        final(settings).audio_input == old(settings).audio_input,
        final(settings).auto_paste == old(settings).auto_paste,
        final(settings).total_words == old(settings).total_words,
        final(settings).schema_version == old(settings).schema_version,
{
    settings.model_name = String::from_str(DEFAULT_MODEL_FILE);
    settings.model_path = String::from_str(destination);
}

} // verus!
