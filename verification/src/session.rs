//! The capture session: a state machine over the fixed step sequence
//! launch, open page, navigate, await the load, settle, capture, export.
//! The session decides; the unverified shell around the library performs each
//! returned action on the browser and reports back how it went.

use vstd::prelude::*;
use crate::config::Config;
use crate::config::ImageFormat;
use crate::config::DEFAULT_JPEG_QUALITY;
use crate::encode::base64_of;
use crate::report::ScreenshotResult;
use crate::report::StepKind;
use crate::report::step_prefix;
use crate::report::failure_result;
use crate::report::base64_success_result;
use crate::report::file_success_result;

verus! {

/// The fixed settle delay, in milliseconds, between the end of navigation and
/// the capture, left for deferred script-driven rendering to finish painting.
pub const SETTLE_MILLIS: u64 = 2000;

/// The capture request handed to the browser.
#[derive(Clone, Copy, Debug, PartialEq, Eq, Structural)]
pub struct CaptureRequest {
    /// The image format the browser encodes.
    pub format: ImageFormat,
    /// The JPEG quality: the configured value for JPEG, the fixed default
    /// otherwise.
    pub quality: i64,
    /// Capture beyond the visible viewport.
    pub beyond_viewport: bool,
}

/// The capture request a configuration gives rise to: the configured quality
/// is forwarded verbatim exactly when the format is JPEG, and the fixed
/// default is sent instead for PNG; the beyond-viewport flag mirrors the
/// full-page flag.
pub open spec fn spec_capture_request(c: Config) -> CaptureRequest {
    CaptureRequest {
        format: c.format,
        quality: if c.format == ImageFormat::Jpeg {
            c.quality as i64
        } else {
            DEFAULT_JPEG_QUALITY as i64
        },
        beyond_viewport: c.full_page,
    }
}

/// Build the capture request for a configuration.
pub fn capture_request(c: &Config) -> (r: CaptureRequest)
    ensures
        r == spec_capture_request(*c),
{
    let quality: i64 = if c.format == ImageFormat::Jpeg {
        c.quality as i64
    } else {
        DEFAULT_JPEG_QUALITY as i64
    };
    CaptureRequest { format: c.format, quality, beyond_viewport: c.full_page }
}

/// Where in the fixed step sequence a session stands.
#[derive(Clone, Copy, Debug, PartialEq, Eq, Structural)]
pub enum Phase {
    /// Launch the browser.
    Launch,
    /// Open a blank page.
    OpenPage,
    /// Start navigation to the target URL.
    Navigate,
    /// Await the end of the primary navigation.
    AwaitLoad,
    /// Sleep for the fixed settle delay.
    Settle,
    /// Request the screenshot.
    Shoot,
    /// Write the captured bytes to the output path.
    WriteOutput,
    /// The run is over and its result record has been produced.
    Finished,
}

/// What the shell is asked to do next.
pub enum Action {
    LaunchBrowser,
    OpenBlankPage,
    NavigateTo { url: String },
    AwaitNavigation,
    SleepMillis { millis: u64 },
    TakeScreenshot { request: CaptureRequest },
    WriteFile { path: String },
}

/// The step a phase reports its failure under; the settle delay cannot fail,
/// and a finished session takes no step.
pub open spec fn step_of_phase(p: Phase) -> Option<StepKind> {
    match p {
        Phase::Launch => Some(StepKind::Launch),
        Phase::OpenPage => Some(StepKind::NewPage),
        Phase::Navigate => Some(StepKind::Navigate),
        Phase::AwaitLoad => Some(StepKind::WaitNavigation),
        Phase::Settle => None,
        Phase::Shoot => Some(StepKind::Screenshot),
        Phase::WriteOutput => Some(StepKind::FileWrite),
        Phase::Finished => None,
    }
}

/// The phases whose success simply moves the sequence one step forward;
/// capture and export are handled separately, since they carry data.
pub open spec fn is_sequential(p: Phase) -> bool {
    match p {
        Phase::Launch => true,
        Phase::OpenPage => true,
        Phase::Navigate => true,
        Phase::AwaitLoad => true,
        Phase::Settle => true,
        _ => false,
    }
}

/// The successor of each sequential phase.
pub open spec fn next_phase(p: Phase) -> Phase {
    match p {
        Phase::Launch => Phase::OpenPage,
        Phase::OpenPage => Phase::Navigate,
        Phase::Navigate => Phase::AwaitLoad,
        Phase::AwaitLoad => Phase::Settle,
        Phase::Settle => Phase::Shoot,
        other => other,
    }
}

/// One capture run, from launch to the single result record.
pub struct Session {
    pub config: Config,
    pub phase: Phase,
    /// The captured image's byte length; zero until the capture succeeds.
    pub size: usize,
}

impl Session {
    /// The session invariant: the file-writing phase is only ever reached
    /// when base64 output was not requested, and no size is recorded before
    /// the capture.
    pub open spec fn inv(self) -> bool {
        &&& (self.phase == Phase::WriteOutput ==> !self.config.base64)
        &&& (is_sequential(self.phase) || self.phase == Phase::Shoot ==> self.size == 0)
    }

    /// Start a run: the session stands at the launch step.
    pub fn start(config: Config) -> (s: Session)
        ensures
            s.config == config,
            s.phase == Phase::Launch,
            s.size == 0,
            s.inv(),
    {
        Session { config, phase: Phase::Launch, size: 0 }
    }

    /// What the shell is to do in the current phase.
    pub fn next_action(&self) -> (a: Action)
        requires
            self.phase != Phase::Finished,
        ensures
            match self.phase {
                Phase::Launch => a == Action::LaunchBrowser,
                Phase::OpenPage => a == Action::OpenBlankPage,
                Phase::Navigate => (a matches Action::NavigateTo { url } && url@
                    == self.config.url@),
                Phase::AwaitLoad => a == Action::AwaitNavigation,
                Phase::Settle => a == (Action::SleepMillis { millis: SETTLE_MILLIS }),
                Phase::Shoot => a == (Action::TakeScreenshot {
                    request: spec_capture_request(self.config),
                }),
                Phase::WriteOutput => (a matches Action::WriteFile { path } && path@
                    == self.config.output@),
                Phase::Finished => false,
            },
    {
        match self.phase {
            Phase::Launch => Action::LaunchBrowser,
            Phase::OpenPage => Action::OpenBlankPage,
            Phase::Navigate => Action::NavigateTo { url: self.config.url.clone() },
            Phase::AwaitLoad => Action::AwaitNavigation,
            Phase::Settle => Action::SleepMillis { millis: SETTLE_MILLIS },
            Phase::Shoot => Action::TakeScreenshot { request: capture_request(&self.config) },
            Phase::WriteOutput => Action::WriteFile { path: self.config.output.clone() },
            Phase::Finished => Action::LaunchBrowser,
        }
    }

    /// The current sequential step succeeded: move one step forward.
    pub fn advance(&mut self)
        requires
            old(self).inv(),
            is_sequential(old(self).phase),
        ensures
            final(self).config == old(self).config,
            final(self).size == old(self).size,
            final(self).phase == next_phase(old(self).phase),
            final(self).inv(),
    {
        self.phase = match self.phase {
            Phase::Launch => Phase::OpenPage,
            Phase::OpenPage => Phase::Navigate,
            Phase::Navigate => Phase::AwaitLoad,
            Phase::AwaitLoad => Phase::Settle,
            Phase::Settle => Phase::Shoot,
            other => other,
        };
    }

    /// The current step failed: the run is over, and its record reports the
    /// step's failure with the given underlying cause, the size captured so
    /// far (zero before the capture), and neither export field.
    pub fn step_failed(&mut self, detail: &str) -> (r: ScreenshotResult)
        requires
            old(self).inv(),
            step_of_phase(old(self).phase) is Some,
        ensures
            final(self).config == old(self).config,
            final(self).phase == Phase::Finished,
            final(self).inv(),
            r.wf(),
            r.echoes(old(self).config),
            !r.success,
            r.size == old(self).size,
            r.base64_data is None,
            r.file_path is None,
            (r.error matches Some(m) && m@ == step_prefix(
                step_of_phase(old(self).phase)->Some_0,
            ) + detail@),
    {
        let kind: StepKind = match self.phase {
            Phase::Launch => StepKind::Launch,
            Phase::OpenPage => StepKind::NewPage,
            Phase::Navigate => StepKind::Navigate,
            Phase::AwaitLoad => StepKind::WaitNavigation,
            Phase::Settle => StepKind::Screenshot,
            Phase::Shoot => StepKind::Screenshot,
            Phase::WriteOutput => StepKind::FileWrite,
            Phase::Finished => StepKind::Launch,
        };
        let r = failure_result(&self.config, kind, detail, self.size);
        self.phase = Phase::Finished;
        r
    }

    /// The capture succeeded with the given bytes. When base64 output was
    /// requested the run is over at once and the returned record carries the
    /// encoded payload; otherwise the session records the byte length and
    /// moves on to writing the file.
    pub fn captured(&mut self, data: &Vec<u8>) -> (r: Option<ScreenshotResult>)
        requires
            old(self).inv(),
            old(self).phase == Phase::Shoot,
            4 * data@.len() + 4 <= usize::MAX,
        ensures
            final(self).config == old(self).config,
            final(self).size == data@.len(),
            final(self).inv(),
            old(self).config.base64 ==> {
                &&& final(self).phase == Phase::Finished
                &&& (r matches Some(res) && {
                    &&& res.wf()
                    &&& res.echoes(old(self).config)
                    &&& res.success
                    &&& res.size == data@.len()
                    &&& (res.base64_data matches Some(p) && p@ == base64_of(data@))
                    &&& res.file_path is None
                    &&& res.error is None
                })
            },
            !old(self).config.base64 ==> {
                &&& final(self).phase == Phase::WriteOutput
                &&& r is None
            },
    {
        self.size = data.len();
        if self.config.base64 {
            self.phase = Phase::Finished;
            Some(base64_success_result(&self.config, data))
        } else {
            self.phase = Phase::WriteOutput;
            None
        }
    }

    /// The file write succeeded: the run is over, and its record reports the
    /// captured byte length and the configured output path, with no base64
    /// payload.
    pub fn file_written(&mut self) -> (r: ScreenshotResult)
        requires
            old(self).inv(),
            old(self).phase == Phase::WriteOutput,
        ensures
            final(self).config == old(self).config,
            final(self).phase == Phase::Finished,
            final(self).inv(),
            r.wf(),
            r.echoes(old(self).config),
            r.success,
            r.size == old(self).size,
            r.base64_data is None,
            (r.file_path matches Some(p) && p@ == old(self).config.output@),
            r.error is None,
    {
        let r = file_success_result(&self.config, self.size);
        self.phase = Phase::Finished;
        r
    }
}

/// When base64 output is requested, a session never stands in the
/// file-writing phase, so no file-write action is ever issued.
pub proof fn lemma_base64_never_writes_file(s: Session)
    requires
        s.inv(),
        s.config.base64,
    ensures
        s.phase != Phase::WriteOutput,
{
}

} // verus!
