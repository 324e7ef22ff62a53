//! Status and device-listing value types returned to callers.

use vstd::prelude::*;

verus! {

/// One enumerable capture device, as shown to callers.
#[derive(Debug, Clone)]
pub struct CameraDevice {
    pub id: String,
    pub name: String,
}

/// A snapshot of the actor's device state, freely copyable to callers.
#[derive(Debug, Clone)]
pub struct CameraStatus {
    pub is_active: bool,
    pub device_name: Option<String>,
    pub resolution: Option<(u32, u32)>,
}

/// Mathematical image of a `CameraStatus`: the name as a character sequence.
#[verifier::ext_equal]
pub ghost struct StatusView {
    pub is_active: bool,
    pub device_name: Option<Seq<char>>,
    pub resolution: Option<(u32, u32)>,
}

impl View for CameraStatus {
    type V = StatusView;

    open spec fn view(&self) -> StatusView {
        StatusView {
            is_active: self.is_active,
            device_name: match self.device_name {
                Some(n) => Some(n@),
                None => None,
            },
            resolution: self.resolution,
        }
    }
}

/// A status is well formed when it claims activity exactly where it
/// carries both a device name and a resolution.
pub open spec fn status_wf(s: StatusView) -> bool {
    s.is_active <==> (s.device_name is Some && s.resolution is Some)
}

impl CameraStatus {
    /// The status of an open device.
    pub fn active(name: String, width: u32, height: u32) -> (r: CameraStatus)
        ensures
            r@ == (StatusView {
                is_active: true,
                device_name: Some(name@),
                resolution: Some((width, height)),
            }),
            status_wf(r@),
    {
        CameraStatus {
            is_active: true,
            device_name: Some(name),
            resolution: Some((width, height)),
        }
    }

    /// The status of a closed actor.
    pub fn inactive() -> (r: CameraStatus)
        ensures
            r@ == (StatusView {
                is_active: false,
                device_name: None,
                resolution: None,
            }),
            status_wf(r@),
    {
        CameraStatus {
            is_active: false,
            device_name: None,
            resolution: None,
        }
    }
}

} // verus!
