//! Decisions taken when a stream starts and for every frame it sends.
use vstd::prelude::*;
use crate::config::{CameraConfig, ConfigError, config_valid};
use crate::driver::{DriverBackend, DriverStatus};
use crate::text::str_equals;

verus! {

/// A stream cannot start because its output's components are missing.
#[derive(Debug, Clone, Copy, PartialEq, Eq, Structural)]
pub enum LaunchError {
    DirectShowNotInstalled,
    MediaFoundationNotInstalled,
}

impl LaunchError {
    /// The message shown to the user.
    pub fn message(&self) -> (text: String)
        ensures
            text@ == match self {
                LaunchError::DirectShowNotInstalled => "먼저 DirectShow 카메라 구성요소를 설치해 주세요."@,
                LaunchError::MediaFoundationNotInstalled => "먼저 Windows 11 카메라 구성요소를 설치해 주세요."@,
            },
    {
        match self {
            LaunchError::DirectShowNotInstalled => "먼저 DirectShow 카메라 구성요소를 설치해 주세요.".to_owned(),
            LaunchError::MediaFoundationNotInstalled => "먼저 Windows 11 카메라 구성요소를 설치해 주세요.".to_owned(),
        }
    }
}

/// The output a validated configuration streams to, given what is
/// installed: DirectShow when it names `directshow`, Media Foundation
/// otherwise, each only when its components are installed.
pub fn select_output(config: &CameraConfig, status: &DriverStatus) -> (output: Result<DriverBackend, LaunchError>)
    requires
        config_valid(*config),
    ensures
        config.backend@ == "directshow"@ ==> output == if status.direct_show_installed {
            Ok::<DriverBackend, LaunchError>(DriverBackend::DirectShow)
        } else {
            Err(LaunchError::DirectShowNotInstalled)
        },
        config.backend@ != "directshow"@ ==> config.backend@ == "media-foundation"@ && output
            == if status.media_foundation_installed {
            Ok::<DriverBackend, LaunchError>(DriverBackend::MediaFoundation)
        } else {
            Err(LaunchError::MediaFoundationNotInstalled)
        },
{
    if str_equals(config.backend.as_str(), "directshow") {
        if !status.direct_show_installed {
            return Err(LaunchError::DirectShowNotInstalled);
        }
        Ok(DriverBackend::DirectShow)
    } else {
        if !status.media_foundation_installed {
            return Err(LaunchError::MediaFoundationNotInstalled);
        }
        Ok(DriverBackend::MediaFoundation)
    }
}

/// Where the frames of a stream come from.
#[derive(Debug, Clone, Copy, PartialEq, Eq, Structural)]
pub enum FrameSource {
    /// A capture of the configured desktop region, taken for every frame.
    ScreenRegion,
    /// The configured image, converted once.
    Image,
    /// The configured colour, generated once.
    Solid,
    /// The moving test pattern, drawn for every frame.
    TestPattern,
}

/// The source a configuration's `source` names; any other name gives the
/// test pattern.
pub open spec fn spec_frame_source(source: Seq<char>) -> FrameSource {
    if source == "screen-region"@ {
        FrameSource::ScreenRegion
    } else if source == "image"@ {
        FrameSource::Image
    } else if source == "solid"@ {
        FrameSource::Solid
    } else {
        FrameSource::TestPattern
    }
}

/// Where the frames of a stream with `config` come from.
pub fn frame_source(config: &CameraConfig) -> (source: FrameSource)
    ensures
        source == spec_frame_source(config.source@),
{
    let name = config.source.as_str();
    if str_equals(name, "screen-region") {
        FrameSource::ScreenRegion
    } else if str_equals(name, "image") {
        FrameSource::Image
    } else if str_equals(name, "solid") {
        FrameSource::Solid
    } else {
        FrameSource::TestPattern
    }
}

/// What the starter heard from a new stream's worker within the start
/// timeout.
pub enum StartReport {
    /// The worker is sending frames.
    Ready,
    /// The worker failed with this message before it was ready.
    Failed(String),
    /// The worker said nothing in time.
    TimedOut,
}

/// What the starter does with the worker.
pub enum StartAction {
    /// Keep the worker as the running stream.
    Keep,
    /// Wait for the failed worker to end and report its message.
    JoinAndFail(String),
    /// Tell the worker to stop, wait for it to end, and report this message.
    StopJoinAndFail(String),
}

/// The message reported when a stream does not start in time.
pub open spec fn start_timeout_message() -> Seq<char> {
    "가상 카메라 시작 시간이 초과되었습니다."@
}

/// Decides what to do with a new worker from its report.
pub fn start_action(report: StartReport) -> (action: StartAction)
    ensures
        match report {
            StartReport::Ready => action is Keep,
            StartReport::Failed(error) => action matches StartAction::JoinAndFail(m) && m@ == error@,
            StartReport::TimedOut => action matches StartAction::StopJoinAndFail(m) && m@
                == start_timeout_message(),
        },
{
    match report {
        StartReport::Ready => StartAction::Keep,
        StartReport::Failed(error) => StartAction::JoinAndFail(error),
        StartReport::TimedOut => StartAction::StopJoinAndFail(
            "가상 카메라 시작 시간이 초과되었습니다.".to_owned(),
        ),
    }
}

/// A step of starting a stream, in the order they are taken.
#[derive(Debug, Clone, Copy, PartialEq, Eq, Structural)]
pub enum LaunchStep {
    /// Stop the running stream, if there is one, and wait for its worker.
    StopRunningStream,
    /// Check the installed components and choose the output.
    SelectOutput,
    /// Start the new worker and wait for its report.
    SpawnWorker,
}

/// The steps that start a stream, given the result of validating its
/// configuration: a configuration that fails validation is refused before
/// any step, so a running stream is left untouched; otherwise the running
/// stream is stopped before the output is chosen and the new worker starts.
pub fn launch_plan(validated: Result<(), ConfigError>) -> (plan: Result<Vec<LaunchStep>, ConfigError>)
    ensures
        match validated {
            Err(e) => plan == Err::<Vec<LaunchStep>, ConfigError>(e),
            Ok(()) => plan matches Ok(steps) && steps@ == seq![
                LaunchStep::StopRunningStream,
                LaunchStep::SelectOutput,
                LaunchStep::SpawnWorker,
            ],
        },
{
    match validated {
        Err(e) => Err(e),
        Ok(()) => {
            let steps = vec![
                LaunchStep::StopRunningStream,
                LaunchStep::SelectOutput,
                LaunchStep::SpawnWorker,
            ];
            assert(steps@ =~= seq![
                LaunchStep::StopRunningStream,
                LaunchStep::SelectOutput,
                LaunchStep::SpawnWorker,
            ]);
            Ok(steps)
        },
    }
}

} // verus!
