//! A single sensor sample and the sub-resources it owns.
//!
//! A capture exclusively owns one native capture handle, at most one decoded
//! depth image, and at most one tracking-result frame handle.  Sub-resources
//! are created lazily and released exactly once: teardown lists the image and
//! frame releases before the capture's own release, since both are derived
//! from the capture handle.

use vstd::prelude::*;

use crate::status::ReleaseAction;

verus! {

/// A depth image decoded from a native image handle: the handle itself
/// (owned, released on capture teardown), the image dimensions, and the
/// decoded 16-bit samples in row-major order, `samples[y * width + x]` the
/// pixel at row `y`, column `x`.
pub struct DepthImage {
    pub handle: u64,
    pub height: usize,
    pub width: usize,
    pub samples: Vec<u16>,
}

impl DepthImage {
    /// The sample grid fills the stated dimensions exactly.
    pub open spec fn wf(self) -> bool {
        self.samples@.len() == self.height * self.width
    }
}

/// One sensor sample: the native capture handle and the lazily created
/// sub-resources it owns.
pub struct K4ACapture {
    /// The native capture handle, exclusively owned.
    pub capture: u64,
    /// The decoded depth image, present once decoding has been requested.
    pub image: Option<DepthImage>,
    /// The tracking-result frame handle, present once a tracking result has
    /// been popped for this capture.
    pub frame: Option<u64>,
}

/// The release steps of one capture, in order: its image handle if present,
/// its frame handle if present, then the capture handle itself.  Sub-handles
/// go first because they are derived from the capture handle.
pub open spec fn capture_release_trace(cap: K4ACapture) -> Seq<ReleaseAction> {
    (match cap.image {
        Some(img) => seq![ReleaseAction::ReleaseImage(img.handle)],
        None => seq![],
    }) + (match cap.frame {
        Some(frame) => seq![ReleaseAction::ReleaseFrame(frame)],
        None => seq![],
    }) + seq![ReleaseAction::ReleaseCapture(cap.capture)]
}

impl K4ACapture {
    /// A capture fresh from acquisition: no decoded image, no tracking frame.
    pub open spec fn fresh(handle: u64) -> K4ACapture {
        K4ACapture { capture: handle, image: None, frame: None }
    }

    /// A decoded image, if present, fills its stated dimensions.
    pub open spec fn wf(self) -> bool {
        match self.image {
            Some(img) => img.wf(),
            None => true,
        }
    }

    /// The native capture handle, for the caller's own native calls.
    pub fn capture_handle(&self) -> (handle: u64)
        ensures
            handle == self.capture,
    {
        self.capture
    }

    /// Whether a depth image has been decoded and cached for this capture.
    pub fn has_image(&self) -> (present: bool)
        ensures
            present == (self.image is Some),
    {
        self.image.is_some()
    }

    /// Whether a tracking-result frame is attached to this capture.
    pub fn has_frame(&self) -> (present: bool)
        ensures
            present == (self.frame is Some),
    {
        self.frame.is_some()
    }

    /// Consume the capture and list its release steps: image and frame
    /// before the capture handle, each exactly once.
    pub fn teardown(self) -> (trace: Vec<ReleaseAction>)
        ensures
            trace@ == capture_release_trace(self),
    {
        let mut trace: Vec<ReleaseAction> = Vec::new();
        match &self.image {
            Some(img) => trace.push(ReleaseAction::ReleaseImage(img.handle)),
            None => (),
        }
        match &self.frame {
            Some(frame) => trace.push(ReleaseAction::ReleaseFrame(*frame)),
            None => (),
        }
        trace.push(ReleaseAction::ReleaseCapture(self.capture));
        proof {
            assert(trace@ =~= capture_release_trace(self));
        }
        trace
    }
}

} // verus!
