//! The screen path: choosing the primary display and scaling its capture.
use vstd::prelude::*;
use crate::clock::now_millis;
use agent_stream_kit::photon_rs::PhotonImage;
use agent_stream_kit::photon_rs::transform::{SamplingFilter, resize};

verus! {

/// A captured RGBA pixel buffer, four bytes per pixel, row by row.
pub struct ImageFrame {
    pub width: u32,
    pub height: u32,
    pub pixels: Vec<u8>,
}

impl ImageFrame {
    /// The buffer holds exactly four bytes for each pixel.
    pub open spec fn well_formed(&self) -> bool {
        self.pixels@.len() == 4 * self.width * self.height
    }

    /// Whether the buffer holds exactly four bytes for each pixel.
    pub fn is_well_formed(&self) -> (r: bool)
        ensures
            r == self.well_formed(),
    {
        proof {
            assert(4 * self.width * self.height <= 4 * 0xffff_ffffu64 * 0xffff_ffffu64) by (nonlinear_arith);
        }
        self.pixels.len() as u128 == 4 * (self.width as u128) * (self.height as u128)
    }
}

/// A scale factor as the exact fraction `numerator / denominator`.
#[derive(Clone, Copy, Debug, PartialEq, Eq, Structural)]
pub struct ScaleFactor {
    pub numerator: u64,
    pub denominator: u64,
}

impl ScaleFactor {
    pub open spec fn well_formed(&self) -> bool {
        self.denominator > 0
    }

    /// The factor is exactly one.
    pub open spec fn is_identity(&self) -> bool {
        self.numerator == self.denominator
    }
}

/// `floor(d * factor)`, held at `u32::MAX` where it is larger.
pub open spec fn scaled_dim(d: u32, factor: ScaleFactor) -> u32 {
    let q = (d as int) * (factor.numerator as int) / (factor.denominator as int);
    if q > u32::MAX {
        u32::MAX
    } else {
        q as u32
    }
}

/// Computes `scaled_dim(d, factor)`.
pub fn scaled_dimension(d: u32, factor: ScaleFactor) -> (r: u32)
    requires
        factor.well_formed(),
    ensures
        r == scaled_dim(d, factor),
{
    proof {
        assert(d * factor.numerator <= 0xffff_ffffu64 * 0xffff_ffff_ffff_ffffu64) by (nonlinear_arith);
    }
    let p: u128 = d as u128 * factor.numerator as u128;
    let q: u128 = p / factor.denominator as u128;
    if q > u32::MAX as u128 {
        u32::MAX
    } else {
        q as u32
    }
}

/// Whether `frame` can be resampled to `width` by `height`: it has pixels,
/// and the working buffers (sixteen bytes a pixel for the intermediate
/// image, four for the result) stay within what one allocation can hold.
pub open spec fn resizable(frame: ImageFrame, width: u32, height: u32) -> bool {
    &&& frame.width > 0
    &&& frame.height > 0
    &&& 16 * frame.width * height <= isize::MAX
    &&& 4 * width * height <= isize::MAX
}

/// The pixels of the nearest-neighbour resampling of a `width` by `height`
/// buffer to `new_width` by `new_height`.
pub uninterp spec fn nearest_resized(
    pixels: Seq<u8>,
    width: u32,
    height: u32,
    new_width: u32,
    new_height: u32,
) -> Seq<u8>;

/// Relies on `photon_rs::transform::resize` with `SamplingFilter::Nearest`:
/// a new image of exactly the requested size, resampled from the source.
/// `PhotonImage::new` and the getters only move the buffer and sizes.
#[verifier::external_body]
fn resize_nearest(frame: &ImageFrame, width: u32, height: u32) -> (r: ImageFrame)
    requires
        frame.well_formed(),
        resizable(*frame, width, height),
    ensures
        r.width == width,
        r.height == height,
        r.well_formed(),
        r.pixels@ == nearest_resized(frame.pixels@, frame.width, frame.height, width, height),
{
    let source = PhotonImage::new(frame.pixels.clone(), frame.width, frame.height);
    let out = resize(&source, width, height, SamplingFilter::Nearest);
    ImageFrame { width: out.get_width(), height: out.get_height(), pixels: out.get_raw_pixels() }
}

/// Why a screen cycle failed.
#[derive(Debug)]
pub enum CaptureError {
    /// Listing the displays failed.
    MonitorEnumerationFailed(String),
    /// Asking a display whether it is the primary one failed.
    PrimaryCheckFailed(String),
    /// No display reported itself as primary.
    NoPrimaryMonitorFound,
    /// Capturing the primary display failed.
    CaptureFailed(String),
    /// The frame could not be resampled to the scaled size.
    ResizeFailed,
}

/// What `scale` gives for a frame that `factor` changes: the frame
/// resampled to the scaled size, or `ResizeFailed` where that size cannot
/// be produced from it.
pub open spec fn rescaled(
    frame: ImageFrame,
    factor: ScaleFactor,
    r: Result<ImageFrame, CaptureError>,
) -> bool {
    let w = scaled_dim(frame.width, factor);
    let h = scaled_dim(frame.height, factor);
    match r {
        Ok(f) => resizable(frame, w, h) && f.width == w && f.height == h && f.well_formed()
            && f.pixels@ == nearest_resized(frame.pixels@, frame.width, frame.height, w, h),
        Err(e) => !resizable(frame, w, h) && e is ResizeFailed,
    }
}

/// Scales `frame` by `factor`: a factor of exactly one hands the frame back
/// untouched; any other resamples it by nearest neighbour to
/// `floor(width * factor)` by `floor(height * factor)`.
pub fn scale(frame: ImageFrame, factor: ScaleFactor) -> (r: Result<ImageFrame, CaptureError>)
    requires
        frame.well_formed(),
        factor.well_formed(),
    ensures
        factor.is_identity() ==> r == Ok::<ImageFrame, CaptureError>(frame),
        !factor.is_identity() ==> rescaled(frame, factor, r),
{
    if factor.numerator == factor.denominator {
        return Ok(frame);
    }
    let w = scaled_dimension(frame.width, factor);
    let h = scaled_dimension(frame.height, factor);
    if frame.width == 0 || frame.height == 0 {
        return Err(CaptureError::ResizeFailed);
    }
    proof {
        assert(16 * frame.width * h <= 16 * 0xffff_ffffu64 * 0xffff_ffffu64) by (nonlinear_arith);
        assert(4 * w * h <= 4 * 0xffff_ffffu64 * 0xffff_ffffu64) by (nonlinear_arith);
    }
    let limit = isize::MAX as u128;
    if 16 * (frame.width as u128) * (h as u128) > limit || 4 * (w as u128) * (h as u128) > limit {
        return Err(CaptureError::ResizeFailed);
    }
    Ok(resize_nearest(&frame, w, h))
}

/// What a display answered when asked whether it is the primary one.
pub enum PrimaryProbe {
    Primary,
    NotPrimary,
    Failed(String),
}

/// The display chosen among `probes[i..]`: the first one that reports
/// itself primary, unless a failed probe comes before it.
pub open spec fn primary_from(probes: Seq<PrimaryProbe>, i: int) -> Result<usize, CaptureError>
    decreases probes.len() - i,
{
    if i < 0 || i >= probes.len() {
        Err(CaptureError::NoPrimaryMonitorFound)
    } else {
        match probes[i] {
            PrimaryProbe::Primary => Ok(i as usize),
            PrimaryProbe::NotPrimary => primary_from(probes, i + 1),
            PrimaryProbe::Failed(m) => Err(CaptureError::PrimaryCheckFailed(m)),
        }
    }
}

/// Picks the index of the first display that reports itself primary, in
/// the order the displays were listed. A failed probe met before it fails
/// the choice; with none primary the result is `NoPrimaryMonitorFound`.
pub fn select_primary(probes: &Vec<PrimaryProbe>) -> (r: Result<usize, CaptureError>)
    ensures
        r == primary_from(probes@, 0),
{
    let mut i: usize = 0;
    while i < probes.len()
        invariant
            i <= probes@.len(),
            primary_from(probes@, 0) == primary_from(probes@, i as int),
        decreases probes@.len() - i,
    {
        match &probes[i] {
            PrimaryProbe::Primary => return Ok(i),
            PrimaryProbe::NotPrimary => {},
            PrimaryProbe::Failed(m) => return Err(CaptureError::PrimaryCheckFailed(m.clone())),
        }
        i = i + 1;
    }
    Err(CaptureError::NoPrimaryMonitorFound)
}

/// The event that accompanies a scaled capture.
pub struct ScreenCaptureMetadata {
    /// Milliseconds since the Unix epoch at which the frame was scaled.
    pub t: i64,
    pub monitor_name: String,
    pub original_width: u32,
    pub original_height: u32,
    pub scaled_width: u32,
    pub scaled_height: u32,
    pub scale: ScaleFactor,
}

/// `m` describes scaling `before` by `factor` into `after`, captured
/// from the display named `monitor_name`.
pub open spec fn describes(
    m: ScreenCaptureMetadata,
    before: ImageFrame,
    after: ImageFrame,
    factor: ScaleFactor,
    monitor_name: Seq<char>,
) -> bool {
    &&& m.monitor_name@ == monitor_name
    &&& m.original_width == before.width
    &&& m.original_height == before.height
    &&& m.scaled_width == after.width
    &&& m.scaled_height == after.height
    &&& m.scale == factor
}

/// Scales a frame captured from the display `monitor_name` and describes
/// the result; fails exactly where `scale` fails.
pub fn process_capture(frame: ImageFrame, factor: ScaleFactor, monitor_name: String) -> (r: Result<
    (ScreenCaptureMetadata, ImageFrame),
    CaptureError,
>)
    requires
        frame.well_formed(),
        factor.well_formed(),
    ensures
        factor.is_identity() ==> r is Ok,
        r matches Ok((m, f)) ==> describes(m, frame, f, factor, monitor_name@) && (
        factor.is_identity() ==> f == frame) && (!factor.is_identity() ==> rescaled(
            frame,
            factor,
            Ok(f),
        )),
        r matches Err(e) ==> !factor.is_identity() && rescaled(frame, factor, Err(e)),
{
    let original_width = frame.width;
    let original_height = frame.height;
    match scale(frame, factor) {
        Ok(f) => {
            let t = now_millis();
            let m = ScreenCaptureMetadata {
                t,
                monitor_name,
                original_width,
                original_height,
                scaled_width: f.width,
                scaled_height: f.height,
                scale: factor,
            };
            Ok((m, f))
        },
        Err(e) => Err(e),
    }
}

} // verus!
