//! The device actor: the one sequential custodian of the capture device.
//!
//! The worker loop that owns the platform handle runs outside this library;
//! it performs the open, release and frame-read calls and hands their
//! outcomes to the methods here. Every state transition of the device is
//! decided by this module, so any sequence of commands the worker serves
//! moves the device along the state machine these contracts describe.

use vstd::prelude::*;
use crate::status::{CameraStatus, StatusView, status_wf};

verus! {

/// What the actor knows of an open device: its negotiated name and
/// resolution. The platform handle itself stays with the worker loop.
#[derive(Debug, Clone)]
pub struct OpenDevice {
    pub name: String,
    pub width: u32,
    pub height: u32,
}

/// Mathematical image of an open device.
#[verifier::ext_equal]
pub ghost struct DeviceView {
    pub name: Seq<char>,
    pub width: u32,
    pub height: u32,
}

impl View for OpenDevice {
    type V = DeviceView;

    open spec fn view(&self) -> DeviceView {
        DeviceView { name: self.name@, width: self.width, height: self.height }
    }
}

/// One request to the actor, without its reply channel: the channel plumbing
/// lives with the worker loop, the decision content lives here.
#[derive(Debug, Clone)]
pub enum CameraCommand {
    Start { device_id: Option<String> },
    Stop,
    Capture { quality: u8 },
    GetStatus,
}

/// The status a state reports: active with the device's name and resolution
/// when open, inactive with neither when closed.
pub open spec fn status_of(dev: Option<DeviceView>) -> StatusView {
    match dev {
        Some(d) => StatusView {
            is_active: true,
            device_name: Some(d.name),
            resolution: Some((d.width, d.height)),
        },
        None => StatusView { is_active: false, device_name: None, resolution: None },
    }
}

/// The Start transition, given the outcome of opening the requested device:
/// on success the new device is installed and its status returned; on failure
/// the actor is left closed (the previous device was already released as
/// best-effort cleanup) and the error is returned.
pub open spec fn step_start(pre: Option<DeviceView>, outcome: Result<DeviceView, Seq<char>>) -> (
    Option<DeviceView>,
    Result<StatusView, Seq<char>>,
) {
    match outcome {
        Ok(d) => (Some(d), Ok(status_of(Some(d)))),
        Err(e) => (None, Err(e)),
    }
}

/// The Stop transition: from any state the actor ends closed and reports
/// success; release failures are swallowed as best-effort cleanup.
pub open spec fn step_stop(pre: Option<DeviceView>) -> (Option<DeviceView>, Result<
    (),
    Seq<char>,
>) {
    (None, Ok(()))
}

/// The Capture transition, given what the acquire-decode-encode pipeline
/// returned: when closed the pipeline is never consulted and the not-started
/// error is returned; when open the state is unchanged and the pipeline's
/// own result is passed through.
pub open spec fn step_capture(
    pre: Option<DeviceView>,
    pipeline: Result<Seq<char>, Seq<char>>,
) -> (Option<DeviceView>, Result<Seq<char>, Seq<char>>) {
    match pre {
        None => (None, Err("Camera not started"@)),
        Some(d) => (Some(d), pipeline),
    }
}

/// The GetStatus transition: the state is unchanged and reported exactly.
pub open spec fn step_get_status(pre: Option<DeviceView>) -> (Option<DeviceView>, StatusView) {
    (pre, status_of(pre))
}

/// The image of an open-device outcome.
pub open spec fn outcome_view(o: Result<OpenDevice, String>) -> Result<DeviceView, Seq<char>> {
    match o {
        Ok(d) => Ok(d@),
        Err(e) => Err(e@),
    }
}

/// The image of a Start reply.
pub open spec fn start_reply_view(r: Result<CameraStatus, String>) -> Result<
    StatusView,
    Seq<char>,
> {
    match r {
        Ok(s) => Ok(s@),
        Err(e) => Err(e@),
    }
}

/// The image of a Stop reply.
pub open spec fn stop_reply_view(r: Result<(), String>) -> Result<(), Seq<char>> {
    match r {
        Ok(u) => Ok(u),
        Err(e) => Err(e@),
    }
}

/// The image of a Capture reply or pipeline outcome.
pub open spec fn capture_reply_view(r: Result<String, String>) -> Result<Seq<char>, Seq<char>> {
    match r {
        Ok(s) => Ok(s@),
        Err(e) => Err(e@),
    }
}

/// The actor's state: closed, or open on one device. The worker loop holds
/// exactly one of these for the life of the process and is the only caller
/// of its methods, so the transitions below are never interleaved.
pub struct CameraActor {
    pub device: Option<OpenDevice>,
}

impl View for CameraActor {
    type V = Option<DeviceView>;

    open spec fn view(&self) -> Option<DeviceView> {
        match self.device {
            Some(d) => Some(d@),
            None => None,
        }
    }
}

impl CameraActor {
    /// A fresh actor starts closed.
    pub fn new() -> (r: CameraActor)
        ensures
            r@ is None,
    {
        CameraActor { device: None }
    }

    /// Whether the worker still holds a platform handle that a Start, Stop
    /// or shutdown must release (best-effort) before going on.
    pub fn needs_release(&self) -> (r: bool)
        ensures
            r == (self@ is Some),
    {
        self.device.is_some()
    }

    /// Apply a Start command, given the outcome of releasing any previous
    /// device and opening the requested one.
    pub fn on_start(&mut self, outcome: Result<OpenDevice, String>) -> (r: Result<
        CameraStatus,
        String,
    >)
        ensures
            final(self)@ == step_start(old(self)@, outcome_view(outcome)).0,
            start_reply_view(r) == step_start(old(self)@, outcome_view(outcome)).1,
    {
        match outcome {
            Ok(dev) => {
                let status = CameraStatus::active(dev.name.clone(), dev.width, dev.height);
                self.device = Some(dev);
                Ok(status)
            },
            Err(e) => {
                self.device = None;
                Err(e)
            },
        }
    }

    /// Apply a Stop command: close, and report success whatever held before.
    pub fn on_stop(&mut self) -> (r: Result<(), String>)
        ensures
            final(self)@ == step_stop(old(self)@).0,
            stop_reply_view(r) == step_stop(old(self)@).1,
            r is Ok,
    {
        self.device = None;
        Ok(())
    }

    /// Decide a Capture command before anything is acquired: the worker may
    /// run the acquire-decode-encode pipeline only when this returns Ok, so
    /// a capture against a closed actor never touches the device layer.
    pub fn capture_gate(&self) -> (r: Result<(), String>)
        ensures
            r is Ok <==> self@ is Some,
            r matches Err(m) ==> m@ == "Camera not started"@,
    {
        match &self.device {
            Some(_) => Ok(()),
            None => Err("Camera not started".to_owned()),
        }
    }

    /// Apply a Capture command, given what the pipeline returned (consulted
    /// only when open): the state never changes, and the reply is the
    /// not-started error when closed, the pipeline's result otherwise.
    pub fn on_capture(&self, pipeline: Result<String, String>) -> (r: Result<String, String>)
        requires
            self@ is Some,
        ensures
            capture_reply_view(r) == step_capture(self@, capture_reply_view(pipeline)).1,
    {
        pipeline
    }

    /// Apply a GetStatus command: report the current state without change.
    pub fn on_get_status(&self) -> (r: CameraStatus)
        ensures
            r@ == step_get_status(self@).1,
            status_wf(r@),
    {
        match &self.device {
            Some(d) => CameraStatus::active(d.name.clone(), d.width, d.height),
            None => CameraStatus::inactive(),
        }
    }
}

/// Every command moves the device state along the actor's machine: a Start
/// ends open exactly when it reports a status and closed exactly when it
/// reports an error, a Stop always ends closed, and a Capture or GetStatus
/// never changes the state. Any sequence of served commands therefore forms
/// one valid walk of the state machine.
pub proof fn lemma_machine_transitions(
    pre: Option<DeviceView>,
    outcome: Result<DeviceView, Seq<char>>,
    pipeline: Result<Seq<char>, Seq<char>>,
)
    ensures
        step_start(pre, outcome).0 is Some <==> step_start(pre, outcome).1 is Ok,
        step_start(pre, outcome).1 is Ok <==> outcome is Ok,
        step_stop(pre).0 is None,
        step_capture(pre, pipeline).0 == pre,
        step_get_status(pre).0 == pre,
{
}

/// Stop is idempotent: from any state a Stop succeeds and leaves the actor
/// closed, and a second Stop right after succeeds again and leaves it closed.
pub proof fn lemma_stop_idempotent(pre: Option<DeviceView>)
    ensures
        step_stop(pre).1 is Ok,
        step_stop(pre).0 is None,
        step_stop(step_stop(pre).0).1 is Ok,
        step_stop(step_stop(pre).0).0 is None,
{
}

/// Every status the actor ever reports is well formed: it claims activity
/// exactly where it carries both a device name and a resolution, whether it
/// comes from a status query or from a successful Start.
pub proof fn lemma_status_consistent(
    pre: Option<DeviceView>,
    outcome: Result<DeviceView, Seq<char>>,
)
    ensures
        status_wf(step_get_status(pre).1),
        step_start(pre, outcome).1 matches Ok(st) ==> status_wf(st),
{
}

/// A Capture against a closed actor reports the not-started error and leaves
/// the actor closed, whatever the pipeline would have produced: its outcome
/// is never consulted.
pub proof fn lemma_capture_requires_open(pipeline: Result<Seq<char>, Seq<char>>)
    ensures
        step_capture(None, pipeline).0 is None,
        step_capture(None, pipeline).1 == Err::<Seq<char>, Seq<char>>("Camera not started"@),
{
}

/// A Capture against an open actor passes the pipeline's own result through
/// and changes nothing.
pub proof fn lemma_capture_preserves_open(d: DeviceView, pipeline: Result<Seq<char>, Seq<char>>)
    ensures
        step_capture(Some(d), pipeline).0 == Some(d),
        step_capture(Some(d), pipeline).1 == pipeline,
{
}

/// A completed transition is visible to the next status query: whether or
/// not the caller that issued the command was still listening for its reply,
/// a GetStatus served afterwards reports exactly the state the command left.
pub proof fn lemma_status_reflects_transition(
    pre: Option<DeviceView>,
    outcome: Result<DeviceView, Seq<char>>,
)
    ensures
        step_get_status(step_start(pre, outcome).0).1 == status_of(step_start(pre, outcome).0),
        step_get_status(step_stop(pre).0).1 == status_of(None::<DeviceView>),
        outcome matches Ok(d) ==> step_get_status(step_start(pre, outcome).0).1 == status_of(
            Some(d),
        ),
{
}

/// A superseding Start replaces the previous device entirely: after a second
/// successful Start the state and the reported status speak only of the
/// second device.
pub proof fn lemma_start_supersedes(
    pre: Option<DeviceView>,
    first: DeviceView,
    second: DeviceView,
)
    ensures
        step_start(step_start(pre, Ok(first)).0, Ok(second)).0 == Some(second),
        step_start(step_start(pre, Ok(first)).0, Ok(second)).1 == Ok::<StatusView, Seq<char>>(
            status_of(Some(second)),
        ),
{
}

} // verus!
