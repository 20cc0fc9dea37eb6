//! The built-in cameras: configuration and capture.
//!
//! A camera unit goes from unconfigured to configured once all of its
//! settings have been applied, from configured to capturing when a capture is
//! issued, and back to configured when the capture completes or fails.
use crate::error::{status_result, Error, Result, ResultCode, RESULT_SUCCESS};
use crate::service::{acquired, released, Service, ServiceHandle, ServiceTable};
use vstd::prelude::*;

verus! {

/// Number of settings that `Camera::configure` applies, one service call each.
pub const CONFIG_STEPS: usize = 6;

/// The largest width or height that the capture call accepts.
pub const MAX_DIMENSION: usize = 0xFFFF;

/// A camera unit, physical or a pair of them.
#[derive(Debug, Clone, Copy, PartialEq, Eq, Structural)]
pub enum CameraUnit {
    /// The camera facing the user.
    Inner,
    /// The right one of the two cameras facing away.
    OuterRight,
    /// The left one of the two cameras facing away.
    OuterLeft,
    /// Both cameras facing away, as one stereo unit.
    BothOuter,
}

/// Size of the image that a camera unit delivers.
#[derive(Debug, Clone, Copy, PartialEq, Eq, Structural)]
pub enum ViewSize {
    /// 400 by 240, the size of the top screen.
    TopLcd,
    /// 320 by 240, the size of the bottom screen.
    BottomLcd,
    /// 640 by 480.
    Vga,
    /// 320 by 240.
    Qvga,
}

/// Pixel format of the captured image.
#[derive(Debug, Clone, Copy, PartialEq, Eq, Structural)]
pub enum OutputFormat {
    /// YUV 4:2:2.
    Yuv422,
    /// 16-bit RGB, five, six and five bits.
    Rgb565,
}

/// The sound played when a picture is taken.
#[derive(Debug, Clone, Copy, PartialEq, Eq, Structural)]
pub enum ShutterSound {
    /// The sound of taking a still picture.
    Normal,
    /// The sound of starting a recording.
    Movie,
    /// The sound of ending a recording.
    MovieEnd,
}

/// Where a camera unit stands in its capture cycle.
#[derive(Debug, Clone, Copy, PartialEq, Eq, Structural)]
pub enum Phase {
    /// Not every setting has been applied yet.
    Unconfigured,
    /// Ready to capture.
    Configured,
    /// A capture has been issued and has not completed.
    Capturing,
}

/// The settings that `Camera::configure` applies, in this order.
#[derive(Debug, Clone, Copy, PartialEq, Eq, Structural)]
pub struct CameraOptions {
    pub view_size: ViewSize,
    pub output_format: OutputFormat,
    pub noise_filter: bool,
    pub auto_exposure: bool,
    pub auto_white_balance: bool,
    pub trimming: bool,
}

/// The settings applied to a camera unit so far; `None` for one never applied.
#[derive(Debug, Clone, Copy, PartialEq, Eq, Structural)]
pub struct CameraSettings {
    pub view_size: Option<ViewSize>,
    pub output_format: Option<OutputFormat>,
    pub noise_filter: Option<bool>,
    pub auto_exposure: Option<bool>,
    pub auto_white_balance: Option<bool>,
    pub trimming: Option<bool>,
}

/// What a camera unit holds: which unit it is, its settings, and its phase.
pub struct CameraView {
    pub unit: CameraUnit,
    pub settings: CameraSettings,
    pub phase: Phase,
}

/// The settings after setting `k` of `options` is applied to `s`.
pub open spec fn apply_setting(s: CameraSettings, options: CameraOptions, k: int) -> CameraSettings {
    if k == 0 {
        CameraSettings { view_size: Some(options.view_size), ..s }
    } else if k == 1 {
        CameraSettings { output_format: Some(options.output_format), ..s }
    } else if k == 2 {
        CameraSettings { noise_filter: Some(options.noise_filter), ..s }
    } else if k == 3 {
        CameraSettings { auto_exposure: Some(options.auto_exposure), ..s }
    } else if k == 4 {
        CameraSettings { auto_white_balance: Some(options.auto_white_balance), ..s }
    } else {
        CameraSettings { trimming: Some(options.trimming), ..s }
    }
}

/// The settings and outcome of applying the settings of `options` from the
/// `k`-th on, where the call for setting `i` reported `statuses[i]`: they
/// are applied in order up to the first call that fails, and nothing applied
/// is undone.
pub open spec fn configured(
    s: CameraSettings,
    options: CameraOptions,
    statuses: Seq<i32>,
    k: nat,
) -> (CameraSettings, core::result::Result<(), Error>)
    decreases CONFIG_STEPS - k,
{
    if k >= CONFIG_STEPS {
        (s, Ok(()))
    } else if statuses[k as int] != RESULT_SUCCESS {
        (s, Err(Error::ServiceError(statuses[k as int])))
    } else {
        configured(apply_setting(s, options, k as int), options, statuses, k + 1)
    }
}

/// The outcome of a capture request for a buffer of `len` bytes.
pub open spec fn capture_admitted(len: int, width: int, height: int) -> core::result::Result<(), Error> {
    if len != width * height * 2 {
        Err(Error::InvalidBufferSize)
    } else if width <= 0 || height <= 0 || width > MAX_DIMENSION || height > MAX_DIMENSION {
        Err(Error::DimensionOutOfRange)
    } else {
        Ok(())
    }
}

/// A capture for the service layer to carry out: transfer `width * height * 2`
/// bytes from `unit`, waiting at most `timeout_ms` milliseconds.
#[derive(Debug, Clone, Copy, PartialEq, Eq, Structural)]
pub struct CaptureRequest {
    pub unit: CameraUnit,
    pub width: u16,
    pub height: u16,
    pub timeout_ms: u64,
}

/// How the service layer's wait for a captured frame ended.
#[derive(Debug, Clone, Copy, PartialEq, Eq, Structural)]
pub enum CaptureOutcome {
    /// The frame arrived in the buffer.
    Received,
    /// The timeout elapsed first.
    TimedOut,
    /// A service call failed with this code.
    Failed(i32),
}

/// The result that a capture ending in `outcome` gives.
pub open spec fn capture_result(outcome: CaptureOutcome) -> core::result::Result<(), Error> {
    match outcome {
        CaptureOutcome::Received => Ok(()),
        CaptureOutcome::TimedOut => Err(Error::CaptureTimeout),
        CaptureOutcome::Failed(code) => Err(Error::ServiceError(code)),
    }
}

/// The settings of a camera unit that nothing has been applied to.
pub open spec fn no_settings() -> CameraSettings {
    CameraSettings {
        view_size: None,
        output_format: None,
        noise_filter: None,
        auto_exposure: None,
        auto_white_balance: None,
        trimming: None,
    }
}

/// One camera unit and its state.
pub struct Camera {
    unit: CameraUnit,
    settings: CameraSettings,
    phase: Phase,
}

impl View for Camera {
    type V = CameraView;

    closed spec fn view(&self) -> CameraView {
        CameraView { unit: self.unit, settings: self.settings, phase: self.phase }
    }
}

impl Camera {
    fn unconfigured(unit: CameraUnit) -> (r: Camera)
        ensures
            r@ == (CameraView { unit, settings: no_settings(), phase: Phase::Unconfigured }),
    {
        Camera {
            unit,
            settings: CameraSettings {
                view_size: None,
                output_format: None,
                noise_filter: None,
                auto_exposure: None,
                auto_white_balance: None,
                trimming: None,
            },
            phase: Phase::Unconfigured,
        }
    }

    /// Which unit this is.
    pub fn unit(&self) -> (r: CameraUnit)
        ensures
            r == self@.unit,
    {
        self.unit
    }

    /// The settings applied so far.
    pub fn settings(&self) -> (r: CameraSettings)
        ensures
            r == self@.settings,
    {
        self.settings
    }

    /// Where the unit stands in its capture cycle.
    pub fn phase(&self) -> (r: Phase)
        ensures
            r == self@.phase,
    {
        self.phase
    }

    fn apply(&mut self, options: &CameraOptions, k: usize)
        requires
            k < CONFIG_STEPS,
        ensures
            final(self)@ == (CameraView {
                settings: apply_setting(old(self)@.settings, *options, k as int),
                ..old(self)@
            }),
    {
        if k == 0 {
            self.settings.view_size = Some(options.view_size);
        } else if k == 1 {
            self.settings.output_format = Some(options.output_format);
        } else if k == 2 {
            self.settings.noise_filter = Some(options.noise_filter);
        } else if k == 3 {
            self.settings.auto_exposure = Some(options.auto_exposure);
        } else if k == 4 {
            self.settings.auto_white_balance = Some(options.auto_white_balance);
        } else {
            self.settings.trimming = Some(options.trimming);
        }
    }

    /// Applies the settings of `options` in order: view size, output format,
    /// noise filter, auto exposure, auto white balance, trimming. The service
    /// call for setting `k` reported `statuses[k]`. At the first call that
    /// failed this stops with its code, keeping the settings already applied;
    /// the calls after it are not issued, and their entries are not read.
    /// When all succeed the unit is configured.
    pub fn configure(&mut self, options: &CameraOptions, statuses: &[i32]) -> (r: Result<()>)
        requires
            old(self)@.phase != Phase::Capturing,
            statuses@.len() == CONFIG_STEPS,
        ensures
            ({
                let (settings, outcome) = configured(old(self)@.settings, *options, statuses@, 0);
                &&& r == outcome
                &&& final(self)@.settings == settings
                &&& final(self)@.unit == old(self)@.unit
                &&& final(self)@.phase == (if r is Ok {
                    Phase::Configured
                } else {
                    old(self)@.phase
                })
            }),
    {
        let k: usize = 0;
        let mut k = k;
        while k < CONFIG_STEPS
            invariant
                k <= CONFIG_STEPS,
                statuses@.len() == CONFIG_STEPS,
                self@.unit == old(self)@.unit,
                self@.phase == old(self)@.phase,
                configured(self@.settings, *options, statuses@, k as nat) == configured(
                    old(self)@.settings,
                    *options,
                    statuses@,
                    0,
                ),
            decreases CONFIG_STEPS - k,
        {
            let status = statuses[k];
            if status != RESULT_SUCCESS {
                return Err(Error::ServiceError(status));
            }
            self.apply(options, k);
            k = k + 1;
        }
        self.phase = Phase::Configured;
        Ok(())
    }

    /// Issues a capture of a `width` by `height` image into a buffer of
    /// `buffer.len()` bytes, waiting at most `timeout_ms` milliseconds. Fails
    /// with `InvalidBufferSize` when the buffer is not `width * height * 2`
    /// bytes long, else with `DimensionOutOfRange` when a dimension is zero or
    /// above `MAX_DIMENSION`; nothing is then issued and the unit is
    /// unchanged. Otherwise the unit is capturing and the request is returned
    /// for the service layer to carry out.
    pub fn capture(&mut self, buffer: &[u8], width: usize, height: usize, timeout_ms: u64) -> (r:
        Result<CaptureRequest>)
        requires
            old(self)@.phase == Phase::Configured,
        ensures
            match capture_admitted(buffer@.len() as int, width as int, height as int) {
                Ok(()) => r == Ok::<CaptureRequest, Error>(
                    CaptureRequest {
                        unit: old(self)@.unit,
                        width: width as u16,
                        height: height as u16,
                        timeout_ms,
                    },
                ) && final(self)@ == (CameraView { phase: Phase::Capturing, ..old(self)@ }),
                Err(e) => r == Err::<CaptureRequest, Error>(e) && final(self)@ == old(self)@,
            },
    {
        let len: usize = buffer.len();
        assert(width * height <= u128::MAX) by (nonlinear_arith)
            requires
                0 <= width <= 0xffff_ffff_ffff_ffff,
                0 <= height <= 0xffff_ffff_ffff_ffff,
        ;
        let pixels: u128 = (width as u128) * (height as u128);
        assert(usize::MAX <= 0xffff_ffff_ffff_ffff);
        if pixels > usize::MAX as u128 {
            return Err(Error::InvalidBufferSize);
        }
        assert(pixels <= 0xffff_ffff_ffff_ffff);
        let bytes: u128 = pixels * 2;
        if len as u128 != bytes {
            return Err(Error::InvalidBufferSize);
        }
        if width == 0 || height == 0 || width > MAX_DIMENSION || height > MAX_DIMENSION {
            return Err(Error::DimensionOutOfRange);
        }
        self.phase = Phase::Capturing;
        Ok(CaptureRequest { unit: self.unit, width: width as u16, height: height as u16, timeout_ms })
    }

    /// Ends the capture in progress with what the service layer's wait
    /// reported. After a timeout or a failure the buffer's contents are
    /// undefined. Either way the unit is configured again.
    pub fn complete_capture(&mut self, outcome: CaptureOutcome) -> (r: Result<()>)
        requires
            old(self)@.phase == Phase::Capturing,
        ensures
            r == capture_result(outcome),
            final(self)@ == (CameraView { phase: Phase::Configured, ..old(self)@ }),
    {
        self.phase = Phase::Configured;
        match outcome {
            CaptureOutcome::Received => Ok(()),
            CaptureOutcome::TimedOut => Err(Error::CaptureTimeout),
            CaptureOutcome::Failed(code) => Err(Error::ServiceError(code)),
        }
    }
}

/// Handle to the camera service, with its four camera units.
pub struct Cam {
    /// Ownership of the camera service.
    pub handle: ServiceHandle,
    /// The camera facing the user.
    pub inner_cam: Camera,
    /// The right camera facing away.
    pub outer_right_cam: Camera,
    /// The left camera facing away.
    pub outer_left_cam: Camera,
    /// Both cameras facing away, as one unit.
    pub both_outer_cams: Camera,
}

/// Whether `c` is camera unit `unit` with nothing applied to it.
pub open spec fn is_fresh(c: CameraView, unit: CameraUnit) -> bool {
    c == (CameraView { unit, settings: no_settings(), phase: Phase::Unconfigured })
}

impl Cam {
    /// Whether the handle owns the camera service.
    pub open spec fn wf(&self) -> bool {
        self.handle@ == Service::Camera
    }

    /// Acquires the camera service, whose acquisition call reported
    /// `init_status`. Every unit starts unconfigured.
    pub fn new(table: &mut ServiceTable, init_status: i32) -> (r: Result<Cam>)
        ensures
            match acquired(old(table)@, Service::Camera, init_status) {
                Ok(live) => r matches Ok(c) && c.wf() && final(table)@ == live
                    && is_fresh(c.inner_cam@, CameraUnit::Inner)
                    && is_fresh(c.outer_right_cam@, CameraUnit::OuterRight)
                    && is_fresh(c.outer_left_cam@, CameraUnit::OuterLeft)
                    && is_fresh(c.both_outer_cams@, CameraUnit::BothOuter),
                Err(e) => r matches Err(f) && f == e && final(table)@ == old(table)@,
            },
    {
        let handle = table.acquire(Service::Camera, init_status)?;
        Ok(Cam {
            handle,
            inner_cam: Camera::unconfigured(CameraUnit::Inner),
            outer_right_cam: Camera::unconfigured(CameraUnit::OuterRight),
            outer_left_cam: Camera::unconfigured(CameraUnit::OuterLeft),
            both_outer_cams: Camera::unconfigured(CameraUnit::BothOuter),
        })
    }

    /// Plays `sound`, whose service call reported `status`. The camera units
    /// are left as they are.
    pub fn play_shutter_sound(&self, sound: ShutterSound, status: i32) -> (r: Result<()>)
        ensures
            r == status_result(status),
    {
        ResultCode(status).into_result()
    }

    /// Releases the camera service.
    pub fn release(self, table: &mut ServiceTable)
        requires
            self.wf(),
        ensures
            final(table)@ == released(old(table)@, Service::Camera),
    {
        table.release(self.handle);
    }
}

} // verus!
