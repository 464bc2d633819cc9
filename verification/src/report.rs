//! The result record: the single document a capture run produces, carrying
//! either the exported image (as a file path or a base64 payload) or an error
//! message naming the step that failed.

use vstd::prelude::*;
use vstd::string::StringExecFns;
use crate::config::Config;
use crate::config::ImageFormat;
use crate::encode::base64_of;
use crate::encode::base64_standard;

verus! {

/// The steps of the capture sequence that can fail.
#[derive(Clone, Copy, Debug, PartialEq, Eq, Structural)]
pub enum StepKind {
    Launch,
    NewPage,
    Navigate,
    WaitNavigation,
    Screenshot,
    FileWrite,
}

/// The message prefix that identifies the failed step; the step's own error
/// text is appended to it.
pub open spec fn step_prefix(k: StepKind) -> Seq<char> {
    match k {
        StepKind::Launch => "Failed to launch browser: "@,
        StepKind::NewPage => "Failed to create new page: "@,
        StepKind::Navigate => "Failed to navigate to URL: "@,
        StepKind::WaitNavigation => "Failed to wait for navigation: "@,
        StepKind::Screenshot => "Failed to capture screenshot: "@,
        StepKind::FileWrite => "Failed to save screenshot to file: "@,
    }
}

/// Build the error message for a failed step: the step's prefix followed by
/// the underlying cause.
pub fn error_message(k: StepKind, detail: &str) -> (r: String)
    ensures
        r@ == step_prefix(k) + detail@,
{
    let prefix: &str = match k {
        StepKind::Launch => "Failed to launch browser: ",
        StepKind::NewPage => "Failed to create new page: ",
        StepKind::Navigate => "Failed to navigate to URL: ",
        StepKind::WaitNavigation => "Failed to wait for navigation: ",
        StepKind::Screenshot => "Failed to capture screenshot: ",
        StepKind::FileWrite => "Failed to save screenshot to file: ",
    };
    let mut message: String = prefix.to_owned();
    message.append(detail);
    message
}

/// The result record of one capture run.
pub struct ScreenshotResult {
    pub success: bool,
    pub url: String,
    pub width: u32,
    pub height: u32,
    pub full_page: bool,
    pub format: ImageFormat,
    pub quality: u8,
    pub size: usize,
    pub base64_data: Option<String>,
    pub file_path: Option<String>,
    pub error: Option<String>,
}

impl ScreenshotResult {
    /// Well-formedness of a result record: an error message is carried exactly
    /// when the run failed; a successful run carries exactly one of the base64
    /// payload and the file path, a failed run neither.
    pub open spec fn wf(self) -> bool {
        &&& (self.error is Some <==> !self.success)
        &&& (self.success ==> !(self.base64_data is Some && self.file_path is Some))
        &&& (self.success ==> (self.base64_data is Some || self.file_path is Some))
        &&& (!self.success ==> self.base64_data is None && self.file_path is None)
    }

    /// The record echoes the configuration the run was made under.
    pub open spec fn echoes(self, c: Config) -> bool {
        &&& self.url@ == c.url@
        &&& self.width == c.width
        &&& self.height == c.height
        &&& self.full_page == c.full_page
        &&& self.format == c.format
        &&& self.quality == c.quality
    }
}

/// The failure record for a failed step: it echoes the configuration, reports
/// the given byte size (zero unless the image was already captured), carries
/// neither export field, and carries the step's error message.
pub fn failure_result(c: &Config, k: StepKind, detail: &str, size: usize) -> (r: ScreenshotResult)
    ensures
        r.wf(),
        r.echoes(*c),
        !r.success,
        r.size == size,
        r.base64_data is None,
        r.file_path is None,
        (r.error matches Some(m) && m@ == step_prefix(k) + detail@),
{
    ScreenshotResult {
        success: false,
        url: c.url.clone(),
        width: c.width,
        height: c.height,
        full_page: c.full_page,
        format: c.format,
        quality: c.quality,
        size,
        base64_data: None,
        file_path: None,
        error: Some(error_message(k, detail)),
    }
}

/// The success record for a run that exports its image as a base64 payload:
/// the reported size is the captured byte length, the payload is the standard
/// base64 encoding of exactly the captured bytes, and no file path is carried.
pub fn base64_success_result(c: &Config, data: &Vec<u8>) -> (r: ScreenshotResult)
    requires
        4 * data@.len() + 4 <= usize::MAX,
    ensures
        r.wf(),
        r.echoes(*c),
        r.success,
        r.size == data@.len(),
        (r.base64_data matches Some(p) && p@ == base64_of(data@)),
        r.file_path is None,
        r.error is None,
{
    let payload = base64_standard(data);
    ScreenshotResult {
        success: true,
        url: c.url.clone(),
        width: c.width,
        height: c.height,
        full_page: c.full_page,
        format: c.format,
        quality: c.quality,
        size: data.len(),
        base64_data: Some(payload),
        file_path: None,
        error: None,
    }
}

/// The success record for a run that wrote its image to the configured output
/// path: the reported size is the given captured byte length, the file path is
/// the configured output path, and no base64 payload is carried.
pub fn file_success_result(c: &Config, size: usize) -> (r: ScreenshotResult)
    ensures
        r.wf(),
        r.echoes(*c),
        r.success,
        r.size == size,
        r.base64_data is None,
        (r.file_path matches Some(p) && p@ == c.output@),
        r.error is None,
{
    ScreenshotResult {
        success: true,
        url: c.url.clone(),
        width: c.width,
        height: c.height,
        full_page: c.full_page,
        format: c.format,
        quality: c.quality,
        size,
        base64_data: None,
        file_path: Some(c.output.clone()),
        error: None,
    }
}

/// A well-formed result carries exactly one of the base64 payload and the
/// file path when it reports success, and neither when it reports failure.
pub proof fn lemma_wf_exclusive(r: ScreenshotResult)
    requires
        r.wf(),
    ensures
        r.success ==> (r.base64_data is Some <==> r.file_path is None),
        !r.success ==> r.base64_data is None && r.file_path is None,
{
}

/// A well-formed result carries an error message exactly when it reports
/// failure.
pub proof fn lemma_error_iff_failure(r: ScreenshotResult)
    requires
        r.wf(),
    ensures
        r.error is Some <==> !r.success,
{
}

} // verus!
