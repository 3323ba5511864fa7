//! The device session: one open sensor device, its configuration, its
//! optional tracking session, and the FIFO queue of in-flight captures.
//!
//! The native layer is an external collaborator reached outside this library:
//! every native call's outcome enters here as a plain value (a status, a
//! fresh handle, a filled buffer), and the session decides what to record,
//! what to hand back, and in which order owned handles are released.  Those
//! decisions are what the contracts below pin down.

use std::collections::VecDeque;

use vstd::prelude::*;

use crate::capture::{capture_release_trace, DepthImage, K4ACapture};
use crate::config::{default_configuration, DeviceConfiguration};
use crate::depth::{copy_samples, decode_depth_samples, decoded_samples};
use crate::serial::{all_ascii, ascii_chars, decode_serial, nul_prefix};
use crate::status::{
    wait_error_of, NativeStatus, OpenError, ReleaseAction, TrackerError, WaitError, WaitStatus,
};

verus! {

/// One open sensor device and everything it owns.
pub struct K4ADevice {
    /// The native device handle, exclusively owned.
    pub device: u64,
    /// The configuration the cameras stream with; takes effect when the
    /// cameras are next started.
    pub capture_config: DeviceConfiguration,
    /// The device serial, resolved on first request and cached (write-once).
    pub serial_number: Option<String>,
    /// The native tracker handle: present if and only if tracking has been
    /// started for this session.
    pub tracker: Option<u64>,
    /// In-flight captures in acquisition order: new captures enter at the
    /// back, the oldest leaves at the front.
    pub active_captures: VecDeque<K4ACapture>,
}

/// The release steps of a queue of captures, front to back: each capture's
/// sub-handles and handle, in queue order.
pub open spec fn queue_release_trace(captures: Seq<K4ACapture>) -> Seq<ReleaseAction>
    decreases captures.len(),
{
    if captures.len() == 0 {
        Seq::empty()
    } else {
        capture_release_trace(captures[0]) + queue_release_trace(captures.drop_first())
    }
}

/// The release steps of a whole session, in the order teardown performs
/// them: tracker shutdown then destroy (when tracking was started), camera
/// stop, device close, then the queued captures' own releases.
pub open spec fn teardown_trace(dev: K4ADevice) -> Seq<ReleaseAction> {
    (match dev.tracker {
        Some(tracker) => seq![
            ReleaseAction::TrackerShutdown(tracker),
            ReleaseAction::TrackerDestroy(tracker),
        ],
        None => seq![],
    }) + seq![
        ReleaseAction::StopCameras(dev.device),
        ReleaseAction::CloseDevice(dev.device),
    ] + queue_release_trace(dev.active_captures@)
}

impl K4ADevice {
    /// Every queued capture is well formed.
    pub open spec fn wf(self) -> bool {
        forall|i: int| 0 <= i < self.active_captures@.len() ==> self.active_captures@[i].wf()
    }

    /// `other` is `self` with the capture queue replaced: device,
    /// configuration, serial cache and tracker untouched.
    pub open spec fn same_but_captures(self, other: K4ADevice) -> bool {
        &&& other.device == self.device
        &&& other.capture_config == self.capture_config
        &&& other.serial_number == self.serial_number
        &&& other.tracker == self.tracker
    }

    /// Open the device with the given index.
    ///
    /// `installed_count` is what native device enumeration reported, and
    /// `opened` the native open call's outcome: the fresh device handle on
    /// success, `None` on failure.  With no devices installed the open is
    /// not attempted at all.  A fresh session carries the default
    /// configuration, no serial, no tracker, and an empty capture queue.
    pub fn try_open(device_id: u32, installed_count: u32, opened: Option<u64>) -> (session: Result<
        K4ADevice,
        OpenError,
    >)
        ensures
            installed_count == 0 ==> session == Err::<K4ADevice, OpenError>(
                OpenError::NoDevicesInstalled,
            ),
            installed_count > 0 && opened is None ==> session == Err::<K4ADevice, OpenError>(
                OpenError::OpenFailed,
            ),
            opened is Some && installed_count > 0 ==> (session matches Ok(dev)
                && dev.device == opened->0 && dev.capture_config == default_configuration()
                && dev.serial_number is None && dev.tracker is None && dev.active_captures@.len()
                == 0 && dev.wf()),
    {
        let _ = device_id;
        if installed_count == 0 {
            return Err(OpenError::NoDevicesInstalled);
        }
        match opened {
            None => Err(OpenError::OpenFailed),
            Some(handle) => Ok(
                K4ADevice {
                    device: handle,
                    capture_config: DeviceConfiguration::default(),
                    serial_number: None,
                    tracker: None,
                    active_captures: VecDeque::new(),
                },
            ),
        }
    }

    /// Open the default device, start its cameras, and start tracking.
    ///
    /// This is the all-or-nothing constructor: it is only for the path on
    /// which enumeration found a device and every native setup call
    /// succeeded, so each outcome argument is required to be a success.
    pub fn new(
        installed_count: u32,
        opened: Option<u64>,
        calibration: NativeStatus,
        tracker_created: Option<u64>,
    ) -> (dev: K4ADevice)
        requires
            installed_count > 0,
            opened is Some,
            calibration == NativeStatus::Succeeded,
            tracker_created is Some,
        ensures
            dev.device == opened->0,
            dev.capture_config == default_configuration(),
            dev.serial_number is None,
            dev.tracker == tracker_created,
            dev.active_captures@.len() == 0,
            dev.wf(),
    {
        let mut dev = match Self::try_open(0, installed_count, opened) {
            Ok(dev) => dev,
            Err(_) => vstd::pervasive::unreached(),
        };
        let _config = dev.start_capture();
        let started = dev.start_tracker(calibration, tracker_created);
        proof {
            assert(started is Ok);
        }
        dev
    }

    /// Replace the active configuration.  Side-effect only: the new record
    /// is picked up when the cameras are next started.
    pub fn set_config(&mut self, config: DeviceConfiguration)
        ensures
            final(self).capture_config == config,
            final(self).device == old(self).device,
            final(self).serial_number == old(self).serial_number,
            final(self).tracker == old(self).tracker,
            final(self).active_captures@ == old(self).active_captures@,
    {
        self.capture_config = config;
    }

    /// Start the cameras.  The decision recorded here is which configuration
    /// the native stream-start call receives: the currently active one,
    /// returned for the caller to pass along.
    pub fn start_capture(&mut self) -> (config: DeviceConfiguration)
        ensures
            config == old(self).capture_config,
            *final(self) == *old(self),
    {
        self.capture_config
    }

    /// Start a tracking session bound to the calibration derived from the
    /// current depth mode.
    ///
    /// `calibration` is the native calibration retrieval's outcome and
    /// `tracker_created` the tracker creation's: the fresh tracker handle on
    /// success, `None` on failure.  A session stores at most one tracker, so
    /// when one is already present the call is a no-op.  On any native
    /// failure nothing is recorded: no partially constructed tracker is ever
    /// left behind.
    pub fn start_tracker(&mut self, calibration: NativeStatus, tracker_created: Option<u64>) -> (r:
        Result<(), TrackerError>)
        ensures
            old(self).tracker is Some ==> r is Ok && *final(self) == *old(self),
            old(self).tracker is None && calibration == NativeStatus::Succeeded
                && tracker_created is Some ==> r is Ok && final(self).tracker == tracker_created,
            old(self).tracker is None && !(calibration == NativeStatus::Succeeded
                && tracker_created is Some) ==> r == Err::<(), TrackerError>(
                TrackerError::TrackerUninitializable,
            ) && *final(self) == *old(self),
            final(self).device == old(self).device,
            final(self).capture_config == old(self).capture_config,
            final(self).serial_number == old(self).serial_number,
            final(self).active_captures@ == old(self).active_captures@,
    {
        if self.tracker.is_some() {
            return Ok(());
        }
        match (calibration, tracker_created) {
            (NativeStatus::Succeeded, Some(tracker)) => {
                self.tracker = Some(tracker);
                Ok(())
            },
            _ => Err(TrackerError::TrackerUninitializable),
        }
    }

    /// Interpret the outcome of a blocking native capture wait.
    ///
    /// `wait_time` is the millisecond timeout the caller gave the native
    /// wait, a negative value meaning wait indefinitely; `acquired` is the
    /// wait's outcome.  On success the fresh capture handle becomes a new
    /// capture that owns it and nothing else; a timeout or failure carries
    /// no handle, so nothing is allocated and nothing needs release.
    pub fn get_capture(&self, wait_time: i32, acquired: WaitStatus, capture_handle: u64) -> (r:
        Result<K4ACapture, WaitError>)
        ensures
            acquired == WaitStatus::Succeeded ==> (r matches Ok(cap) && cap
                == K4ACapture::fresh(capture_handle)),
            acquired != WaitStatus::Succeeded ==> r == Err::<K4ACapture, WaitError>(
                wait_error_of(acquired),
            ),
    {
        let _ = wait_time;
        match acquired {
            WaitStatus::Succeeded => Ok(
                K4ACapture { capture: capture_handle, image: None, frame: None },
            ),
            WaitStatus::Timeout => Err(WaitError::WaitTimeout),
            WaitStatus::Failed => Err(WaitError::WaitFailed),
        }
    }

    /// Acquire the next frame with an indefinite wait and queue it.
    ///
    /// On a successful wait the fresh capture enters at the back of the
    /// queue, so queue order is acquisition order; on a timeout or failure
    /// the queue and the rest of the session are untouched.
    pub fn next_frame(&mut self, acquired: WaitStatus, capture_handle: u64) -> (r: Result<
        (),
        WaitError,
    >)
        ensures
            acquired == WaitStatus::Succeeded ==> r is Ok && final(self).active_captures@ == old(
                self,
            ).active_captures@.push(K4ACapture::fresh(capture_handle)),
            acquired != WaitStatus::Succeeded ==> r == Err::<(), WaitError>(
                wait_error_of(acquired),
            ) && final(self).active_captures@ == old(self).active_captures@,
            old(self).same_but_captures(*final(self)),
            old(self).wf() ==> final(self).wf(),
    {
        match self.get_capture(-1, acquired, capture_handle) {
            Ok(cap) => {
                self.active_captures.push_back(cap);
                Ok(())
            },
            Err(e) => Err(e),
        }
    }

    /// Drop the oldest capture, fully releasing it.
    ///
    /// The front capture leaves the queue and its release steps are
    /// returned, sub-handles before the capture handle; every other capture
    /// keeps its place and its contents.  On an empty queue this is a no-op,
    /// not an error.
    pub fn drop_oldest_capture(&mut self) -> (trace: Vec<ReleaseAction>)
        ensures
            old(self).active_captures@.len() == 0 ==> final(self).active_captures@ == old(
                self,
            ).active_captures@ && trace@ == Seq::<ReleaseAction>::empty(),
            old(self).active_captures@.len() > 0 ==> final(self).active_captures@ == old(
                self,
            ).active_captures@.drop_first() && trace@ == capture_release_trace(
                old(self).active_captures@[0],
            ),
            old(self).same_but_captures(*final(self)),
            old(self).wf() ==> final(self).wf(),
    {
        match self.active_captures.pop_front() {
            Some(cap) => cap.teardown(),
            None => Vec::new(),
        }
    }

    /// Resolve the device serial, caching it on first request.
    ///
    /// `raw` is the buffer the native two-phase size-then-fill query
    /// produced; it is consulted only while no serial is cached.  The bytes
    /// before the buffer's first NUL decode when they are all ASCII; a
    /// malformed buffer degrades to a sentinel error string.  Either way the
    /// result is recorded write-once, and later calls return the cached
    /// string without looking at their buffer.
    pub fn get_serial_number(&mut self, raw: &Vec<u8>) -> (serial: String)
        ensures
            old(self).serial_number matches Some(cached) ==> (serial == cached && *final(self)
                == *old(self)),
            old(self).serial_number is None ==> {
                &&& all_ascii(nul_prefix(raw@)) ==> serial@ == ascii_chars(nul_prefix(raw@))
                &&& !all_ascii(nul_prefix(raw@)) ==> serial@ == "ERROR UNWRAPPING SERIAL NUMBER"@
                &&& final(self).serial_number == Some(serial)
                &&& final(self).device == old(self).device
                &&& final(self).capture_config == old(self).capture_config
                &&& final(self).tracker == old(self).tracker
                &&& final(self).active_captures@ == old(self).active_captures@
            },
    {
        if let Some(cached) = &self.serial_number {
            return cached.clone();
        }
        let serial = match decode_serial(raw) {
            Some(serial) => serial,
            None => String::from_str("ERROR UNWRAPPING SERIAL NUMBER"),
        };
        self.serial_number = Some(serial.clone());
        serial
    }

    /// Decode the front capture's depth image and cache it.
    ///
    /// `image_handle`, the dimensions and `raw` are what the native image
    /// queries reported for the front capture; the raw buffer is a
    /// row-major grid of 16-bit little-endian samples, so its stride is two
    /// bytes per pixel and its size is one stride per row.  The copy out of
    /// device-owned memory completes here, before the caller may release
    /// anything: the decoded image owns its samples outright.  Decoding
    /// happens at most once per capture; every other capture is untouched.
    pub fn attach_depth_image(
        &mut self,
        image_handle: u64,
        height: usize,
        width: usize,
        stride: usize,
        raw: &Vec<u8>,
    )
        requires
            old(self).active_captures@.len() > 0,
            old(self).active_captures@[0].image is None,
            stride == 2 * width,
            raw@.len() == stride * height,
        ensures
            final(self).active_captures@.len() == old(self).active_captures@.len(),
            final(self).active_captures@[0].capture == old(self).active_captures@[0].capture,
            final(self).active_captures@[0].frame == old(self).active_captures@[0].frame,
            final(self).active_captures@[0].image matches Some(img) && img == (DepthImage {
                handle: image_handle,
                height,
                width,
                samples: img.samples,
            }) && img.samples@ == decoded_samples(raw@),
            final(self).active_captures@[0].wf(),
            forall|i: int|
                1 <= i < old(self).active_captures@.len() ==> final(self).active_captures@[i]
                    == old(self).active_captures@[i],
            old(self).same_but_captures(*final(self)),
            old(self).wf() ==> final(self).wf(),
    {
        proof {
            assert(raw@.len() == 2 * (width * height)) by (nonlinear_arith)
                requires
                    stride == 2 * width,
                    raw@.len() == stride * height,
            ;
        }
        let mut cap = match self.active_captures.pop_front() {
            Some(cap) => cap,
            None => vstd::pervasive::unreached(),
        };
        let samples = decode_depth_samples(raw);
        proof {
            assert(samples@.len() == width * height);
            assert(width * height == height * width) by (nonlinear_arith);
        }
        cap.image = Some(
            DepthImage { handle: image_handle, height: height, width: width, samples: samples },
        );
        self.active_captures.push_front(cap);
    }

    /// The front capture's decoded depth image, for a capture whose image
    /// has been decoded.
    pub open spec fn front_image(self) -> DepthImage
        recommends
            self.active_captures@.len() > 0,
            self.active_captures@[0].image is Some,
    {
        self.active_captures@[0].image->0
    }

    /// Read the front capture's depth image: its height, width, and a fresh
    /// copy of the decoded samples.
    ///
    /// The result is a function of the capture alone and the session is not
    /// touched, so repeated reads agree in dimensions and content.  Reading
    /// a capture whose image has not been decoded is a programming error,
    /// excluded by contract rather than reported at run time.
    pub fn get_depth_image(&self) -> (image: (usize, usize, Vec<u16>))
        requires
            self.active_captures@.len() > 0,
            self.active_captures@[0].image is Some,
        ensures
            image.0 == self.front_image().height,
            image.1 == self.front_image().width,
            image.2@ == self.front_image().samples@,
    {
        let cap = &self.active_captures[0];
        match &cap.image {
            Some(img) => (img.height, img.width, copy_samples(&img.samples)),
            None => vstd::pervasive::unreached(),
        }
    }

    /// Submit a capture to the tracking session for asynchronous skeletal
    /// inference.
    ///
    /// Submission hands the native tracker a reference: the capture keeps
    /// ownership of its handle.  `wait_time` is the millisecond timeout of
    /// the native enqueue, negative for an indefinite wait.  Without a
    /// started tracking session the submission is refused outright — no
    /// native call is implied — and `enqueued`, the native enqueue outcome,
    /// is interpreted only when a tracker is present.
    pub fn queue_capture_for_processing(
        &self,
        cap: &K4ACapture,
        wait_time: i32,
        enqueued: WaitStatus,
    ) -> (r: Result<(), WaitError>)
        ensures
            self.tracker is None ==> r == Err::<(), WaitError>(WaitError::TrackerNotInitialized),
            self.tracker is Some && enqueued == WaitStatus::Succeeded ==> r is Ok,
            self.tracker is Some && enqueued != WaitStatus::Succeeded ==> r == Err::<
                (),
                WaitError,
            >(wait_error_of(enqueued)),
    {
        let _ = cap;
        let _ = wait_time;
        if self.tracker.is_none() {
            return Err(WaitError::TrackerNotInitialized);
        }
        match enqueued {
            WaitStatus::Succeeded => Ok(()),
            WaitStatus::Timeout => Err(WaitError::WaitTimeout),
            WaitStatus::Failed => Err(WaitError::WaitFailed),
        }
    }

    /// Record the next completed tracking result on its capture.
    ///
    /// `wait_time` is the millisecond timeout of the native pop, negative
    /// for an indefinite wait; `popped` is its outcome and `frame_handle`
    /// the popped frame on success.  The capture then owns the frame handle
    /// and releases it on teardown; a capture receives at most one tracking
    /// frame.  Without a started tracking session the call is refused and
    /// the capture is untouched, as it is on a timeout or failure.
    pub fn fetch_tracking_result(
        &self,
        cap: &mut K4ACapture,
        wait_time: i32,
        popped: WaitStatus,
        frame_handle: u64,
    ) -> (r: Result<(), WaitError>)
        requires
            popped == WaitStatus::Succeeded ==> old(cap).frame is None,
        ensures
            self.tracker is None ==> (r == Err::<(), WaitError>(WaitError::TrackerNotInitialized)
                && *final(cap) == *old(cap)),
            self.tracker is Some && popped == WaitStatus::Succeeded ==> (r is Ok
                && final(cap).frame == Some(frame_handle)
                && final(cap).capture == old(cap).capture
                && final(cap).image == old(cap).image),
            self.tracker is Some && popped != WaitStatus::Succeeded ==> (r == Err::<
                (),
                WaitError,
            >(wait_error_of(popped)) && *final(cap) == *old(cap)),
    {
        let _ = wait_time;
        if self.tracker.is_none() {
            return Err(WaitError::TrackerNotInitialized);
        }
        match popped {
            WaitStatus::Succeeded => {
                cap.frame = Some(frame_handle);
                Ok(())
            },
            WaitStatus::Timeout => Err(WaitError::WaitTimeout),
            WaitStatus::Failed => Err(WaitError::WaitFailed),
        }
    }

    /// Skeleton data stays with the native frame handle a capture records;
    /// this surface exposes nothing beyond the frame's presence.
    pub fn get_skeleton(&self) {
    }

    /// Skeleton retrieval over a capture's recorded frame; reports the
    /// neutral native code and leaves both the session and the capture as
    /// they were.
    pub fn get_skeleton_result(&mut self, cap: &mut K4ACapture, wait_time: i32) -> (code: i32)
        ensures
            code == 0,
            *final(self) == *old(self),
            *final(cap) == *old(cap),
    {
        let _ = wait_time;
        let _ = cap;
        0
    }

    /// Tear the session down, listing every release step in order: the
    /// tracker is shut down and destroyed before the cameras stop, the
    /// cameras stop before the device closes, and the queued captures
    /// release their sub-handles before their own handles.
    pub fn teardown(self) -> (trace: Vec<ReleaseAction>)
        ensures
            trace@ == teardown_trace(self),
    {
        let ghost whole = teardown_trace(self);
        let K4ADevice { device, capture_config: _, serial_number: _, tracker, active_captures } =
            self;
        let mut queue = active_captures;
        let mut trace: Vec<ReleaseAction> = Vec::new();
        match tracker {
            Some(t) => {
                trace.push(ReleaseAction::TrackerShutdown(t));
                trace.push(ReleaseAction::TrackerDestroy(t));
            },
            None => (),
        }
        trace.push(ReleaseAction::StopCameras(device));
        trace.push(ReleaseAction::CloseDevice(device));
        proof {
            assert(trace@ + queue_release_trace(queue@) =~= whole);
        }
        while queue.len() > 0
            invariant
                trace@ + queue_release_trace(queue@) == whole,
            decreases queue@.len(),
        {
            let cap = match queue.pop_front() {
                Some(cap) => cap,
                None => vstd::pervasive::unreached(),
            };
            let mut sub = cap.teardown();
            proof {
                assert(trace@ + sub@ + queue_release_trace(queue@) =~= whole);
            }
            trace.append(&mut sub);
        }
        proof {
            assert(trace@ =~= whole);
        }
        trace
    }

    /// The native device handle, for the caller's own native calls.
    pub fn device_handle(&self) -> (handle: u64)
        ensures
            handle == self.device,
    {
        self.device
    }

    /// The native tracker handle, present exactly when tracking has been
    /// started.
    pub fn tracker_handle(&self) -> (tracker: Option<u64>)
        ensures
            tracker == self.tracker,
    {
        self.tracker
    }

    /// Whether the serial has been resolved and cached.
    pub fn serial_cached(&self) -> (cached: bool)
        ensures
            cached == (self.serial_number is Some),
    {
        self.serial_number.is_some()
    }

    /// How many captures are in flight: exactly the captures whose handles
    /// have not been released.
    pub fn capture_count(&self) -> (count: usize)
        ensures
            count == self.active_captures@.len(),
    {
        self.active_captures.len()
    }

    /// The oldest in-flight capture's native handle.
    pub fn front_capture_handle(&self) -> (handle: u64)
        requires
            self.active_captures@.len() > 0,
        ensures
            handle == self.active_captures@[0].capture,
    {
        self.active_captures[0].capture
    }

    /// Whether the oldest in-flight capture already carries its decoded
    /// depth image.
    pub fn front_has_image(&self) -> (present: bool)
        requires
            self.active_captures@.len() > 0,
        ensures
            present == (self.active_captures@[0].image is Some),
    {
        self.active_captures[0].image.is_some()
    }
}

/// The queue as the caller observes it after the oldest `dropped` captures
/// have been dropped.
pub open spec fn after_drops(captures: Seq<K4ACapture>, dropped: int) -> Seq<K4ACapture>
    recommends
        0 <= dropped <= captures.len(),
{
    captures.subrange(dropped, captures.len() as int)
}

/// FIFO observation law: captures enter at the back and leave at the front,
/// so after any number of drops exactly the oldest captures are gone and
/// every remaining capture keeps its acquisition order and its contents.
pub proof fn lemma_fifo_order(captures: Seq<K4ACapture>, dropped: int, i: int)
    requires
        0 <= dropped <= captures.len(),
        dropped <= i < captures.len(),
    ensures
        after_drops(captures, dropped).len() == captures.len() - dropped,
        after_drops(captures, dropped)[i - dropped] == captures[i],
{
}

/// Acquisition never disturbs observation: a capture pushed at the back sits
/// behind everything already queued, whatever has been dropped so far.
pub proof fn lemma_acquire_preserves_order(
    captures: Seq<K4ACapture>,
    cap: K4ACapture,
    dropped: int,
)
    requires
        0 <= dropped <= captures.len(),
    ensures
        after_drops(captures.push(cap), dropped) == after_drops(captures, dropped).push(cap),
{
    assert(after_drops(captures.push(cap), dropped) =~= after_drops(captures, dropped).push(cap));
}

/// One drop advances the observation point by exactly one position.
pub proof fn lemma_drop_oldest_advances(captures: Seq<K4ACapture>, dropped: int)
    requires
        0 <= dropped < captures.len(),
    ensures
        after_drops(captures, dropped).drop_first() == after_drops(captures, dropped + 1),
{
    assert(after_drops(captures, dropped).drop_first() =~= after_drops(captures, dropped + 1));
}

/// Dropping the oldest capture shortens the queue by exactly one and leaves
/// every other capture exactly as it was, one position closer to the front.
pub proof fn lemma_drop_oldest_preserves_rest(captures: Seq<K4ACapture>, i: int)
    requires
        captures.len() > 0,
        1 <= i < captures.len(),
    ensures
        captures.drop_first().len() == captures.len() - 1,
        captures.drop_first()[i - 1] == captures[i],
{
}

/// Depth reads are idempotent: `get_depth_image` takes the session by shared
/// reference and its result is a function of the front capture's cached
/// image alone, so two reads of the same session agree in height, width and
/// sample content.
pub proof fn lemma_depth_image_deterministic(
    dev: K4ADevice,
    first: (usize, usize, Seq<u16>),
    second: (usize, usize, Seq<u16>),
)
    requires
        dev.active_captures@.len() > 0,
        dev.active_captures@[0].image is Some,
        first == (dev.front_image().height, dev.front_image().width, dev.front_image().samples@),
        second == (dev.front_image().height, dev.front_image().width, dev.front_image().samples@),
    ensures
        first == second,
{
}

/// Teardown order law: when tracking was started, the teardown trace shuts
/// the tracker down, then destroys it, then stops the cameras, then closes
/// the device — each step strictly before the next, ahead of every capture
/// release.
pub proof fn lemma_teardown_order(dev: K4ADevice)
    requires
        dev.tracker is Some,
    ensures
        teardown_trace(dev).len() >= 4,
        teardown_trace(dev)[0] == ReleaseAction::TrackerShutdown(dev.tracker->0),
        teardown_trace(dev)[1] == ReleaseAction::TrackerDestroy(dev.tracker->0),
        teardown_trace(dev)[2] == ReleaseAction::StopCameras(dev.device),
        teardown_trace(dev)[3] == ReleaseAction::CloseDevice(dev.device),
{
}

} // verus!
