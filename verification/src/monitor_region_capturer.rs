//! Per-region capture contexts: a context is bound to one monitor and one
//! capture rectangle, and each capture turns the bytes the OS read back
//! into an RGBA pixel buffer of the region's size.
use crate::metrics::{lemma_has_key_upsert, lemma_remove_upsert, remove_key, upsert, Metrics};
use crate::monitor_info::MonitorInfo;
use crate::rect_extensions::{HasBottom, HasHeight, HasLeft, HasRight, HasTop, HasWidth, Rect};
use crate::shuffle::{bgra_to_rgba, swap_channels};
use vstd::prelude::*;

verus! {

/// The pixels of one captured frame: `width * height` pixels, row major,
/// top row first, 4 bytes per pixel in R,G,B,A order.
#[derive(Debug)]
pub struct PixelBuffer {
    pub width: u32,
    pub height: u32,
    pub data: Vec<u8>,
}

impl PixelBuffer {
    /// A pixel buffer holds exactly `width * height * 4` bytes.
    pub open spec fn wf(self) -> bool {
        self.data@.len() == self.width * self.height * 4
    }
}

/// Why a single capture failed. The context stays valid either way; a
/// later capture over the same context may succeed.
#[derive(Debug, Clone, Copy, PartialEq, Eq, Structural)]
pub enum CaptureError {
    /// The OS copy out of the monitor's source context reported an error.
    BlitFailed,
    /// The readback of the destination surface reported zero scanlines.
    ReadbackFailed,
    /// The readback handed back a buffer of the wrong size.
    MalformedBuffer,
}

/// The capture region did not lie within the bound monitor's rectangle, or
/// had no area; such a context is rejected at construction.
#[derive(Debug, Clone, Copy, PartialEq, Eq, Structural)]
pub struct InvalidCaptureRegion;

/// What the OS side of one capture handed back: the failure of the blit,
/// the failure of the readback, or the raw bytes of the destination
/// surface in B,G,R,A order, top row first.
#[derive(Debug)]
pub enum CaptureReadback {
    BlitFailed,
    NoScanlines,
    Data(Vec<u8>),
}

/// A reusable capture context: one monitor, one capture rectangle. The
/// destination surface the OS holds for it is sized to the region once, at
/// construction; capturing another size takes a new context.
pub struct MonitorRegionCapturer {
    pub monitor: MonitorInfo,
    pub capture_region: Rect,
}

/// The monitor's rectangle and the region both have positive width and
/// height no larger than `i32::MAX`, and the region lies within the
/// monitor's rectangle.
pub open spec fn region_fits_monitor(monitor: MonitorInfo, region: Rect) -> bool {
    &&& 0 < monitor.rect.spec_width() <= i32::MAX
    &&& 0 < monitor.rect.spec_height() <= i32::MAX
    &&& 0 < region.spec_width() <= i32::MAX
    &&& 0 < region.spec_height() <= i32::MAX
    &&& monitor.rect.spec_left() <= region.spec_left()
    &&& monitor.rect.spec_top() <= region.spec_top()
    &&& region.spec_right() <= monitor.rect.spec_right()
    &&& region.spec_bottom() <= monitor.rect.spec_bottom()
}

/// The two descriptors carry the same identity and geometry.
pub open spec fn monitor_info_same(a: MonitorInfo, b: MonitorInfo) -> bool {
    &&& a.id == b.id
    &&& a.name@ == b.name@
    &&& a.rect == b.rect
    &&& a.work_area == b.work_area
    &&& a.is_primary == b.is_primary
}

fn clone_monitor_info(m: &MonitorInfo) -> (c: MonitorInfo)
    ensures
        monitor_info_same(c, *m),
{
    MonitorInfo {
        id: m.id,
        name: m.name.as_str().to_owned(),
        rect: m.rect,
        work_area: m.work_area,
        is_primary: m.is_primary,
    }
}

/// Bind a capture context to one monitor and one region. The region is
/// validated here, at construction: it must have positive area and lie
/// within the monitor's rectangle, else no context is handed out.
pub fn get_monitor_capturer(monitor: MonitorInfo, capture_region: Rect) -> (r: Result<
    MonitorRegionCapturer,
    InvalidCaptureRegion,
>)
    ensures
        r is Ok <==> region_fits_monitor(monitor, capture_region),
        r is Ok ==> {
            &&& r->Ok_0.monitor == monitor
            &&& r->Ok_0.capture_region == capture_region
            &&& r->Ok_0.wf()
        },
{
    let max: i64 = 0x7fff_ffff;
    let mw = monitor.rect.right as i64 - monitor.rect.left as i64;
    let mh = monitor.rect.bottom as i64 - monitor.rect.top as i64;
    let rw = capture_region.right as i64 - capture_region.left as i64;
    let rh = capture_region.bottom as i64 - capture_region.top as i64;
    if mw > 0 && mw <= max && mh > 0 && mh <= max && rw > 0 && rw <= max && rh > 0 && rh <= max
        && monitor.rect.left <= capture_region.left && monitor.rect.top <= capture_region.top
        && capture_region.right <= monitor.rect.right && capture_region.bottom
        <= monitor.rect.bottom {
        Ok(MonitorRegionCapturer { monitor, capture_region })
    } else {
        Err(InvalidCaptureRegion)
    }
}

/// One capture context per monitor, each bound to the monitor's full
/// rectangle: if any monitor's rectangle cannot serve as a capture region,
/// no context is handed out.
pub fn get_full_monitor_capturers(monitors: &Vec<MonitorInfo>) -> (r: Result<
    Vec<MonitorRegionCapturer>,
    InvalidCaptureRegion,
>)
    ensures
        r is Ok <==> (forall|i: int|
            0 <= i < monitors@.len() ==> region_fits_monitor(monitors@[i], monitors@[i].rect)),
        r is Ok ==> {
            &&& r->Ok_0@.len() == monitors@.len()
            &&& forall|i: int|
                0 <= i < monitors@.len() ==> {
                    &&& monitor_info_same(r->Ok_0@[i].monitor, monitors@[i])
                    &&& r->Ok_0@[i].capture_region == monitors@[i].rect
                    &&& r->Ok_0@[i].wf()
                }
        },
{
    let n = monitors.len();
    let mut capturers: Vec<MonitorRegionCapturer> = Vec::new();
    let mut i: usize = 0;
    while i < n
        invariant
            n == monitors@.len(),
            i <= n,
            capturers@.len() == i,
            forall|j: int|
                0 <= j < i ==> region_fits_monitor(monitors@[j], monitors@[j].rect),
            forall|j: int|
                0 <= j < i ==> {
                    &&& monitor_info_same(capturers@[j].monitor, monitors@[j])
                    &&& capturers@[j].capture_region == monitors@[j].rect
                    &&& capturers@[j].wf()
                },
        decreases n - i,
    {
        let info = clone_monitor_info(&monitors[i]);
        let region = info.rect;
        match get_monitor_capturer(info, region) {
            Ok(capturer) => {
                capturers.push(capturer);
            },
            Err(e) => {
                proof {
                    assert(!region_fits_monitor(monitors@[i as int], monitors@[i as int].rect));
                }
                return Err(e);
            },
        }
        i += 1;
    }
    Ok(capturers)
}

impl MonitorRegionCapturer {
    /// A context is well formed when its region fits its monitor.
    pub open spec fn wf(self) -> bool {
        region_fits_monitor(self.monitor, self.capture_region)
    }

    /// How many bytes a readback of this context's region must hand back.
    pub open spec fn spec_buffer_len(self) -> int {
        self.capture_region.spec_width() * self.capture_region.spec_height() * 4
    }

    /// The offset of the capture region within its monitor's rectangle:
    /// the blit reads the source at these monitor-relative coordinates.
    pub fn blit_source_offset(&self) -> (r: (i32, i32))
        requires
            self.wf(),
        ensures
            r.0 as int == self.capture_region.spec_left() - self.monitor.rect.spec_left(),
            r.1 as int == self.capture_region.spec_top() - self.monitor.rect.spec_top(),
    {
        (
            self.capture_region.left() - self.monitor.rect.left(),
            self.capture_region.top() - self.monitor.rect.top(),
        )
    }

    /// One capture over this context, given what the OS blit and readback
    /// handed back: each failure maps to its error, and a readback of the
    /// right size has its channels reordered and is wrapped as a pixel
    /// buffer of the region's dimensions. The reorder and the wrap are
    /// timed under "shuffle" and "image" when the timers are enabled.
    pub fn capture(&self, readback: CaptureReadback, metrics: &mut Metrics) -> (r: Result<
        PixelBuffer,
        CaptureError,
    >)
        requires
            self.wf(),
        ensures
            r is Ok <==> (readback matches CaptureReadback::Data(d) && d@.len()
                == self.spec_buffer_len()),
            readback is BlitFailed ==> r == Err::<PixelBuffer, CaptureError>(
                CaptureError::BlitFailed,
            ),
            readback is NoScanlines ==> r == Err::<PixelBuffer, CaptureError>(
                CaptureError::ReadbackFailed,
            ),
            (readback matches CaptureReadback::Data(d) && d@.len() != self.spec_buffer_len())
                ==> r == Err::<PixelBuffer, CaptureError>(CaptureError::MalformedBuffer),
            r is Ok ==> {
                &&& r->Ok_0.wf()
                &&& r->Ok_0.width as int == self.capture_region.spec_width()
                &&& r->Ok_0.height as int == self.capture_region.spec_height()
                &&& r->Ok_0.data@ == swap_channels(readback->Data_0@)
            },
            final(metrics).is_enabled() == old(metrics).is_enabled(),
            r is Ok ==> final(metrics).spec_ongoing() == remove_key(
                remove_key(old(metrics).spec_ongoing(), "shuffle"@),
                "image"@,
            ),
            (r is Ok && old(metrics).is_enabled()) ==> exists|d1: u64, d2: u64|
                final(metrics).spec_completed() == upsert(
                    upsert(old(metrics).spec_completed(), "shuffle"@, d1),
                    "image"@,
                    d2,
                ),
            !(r is Ok && old(metrics).is_enabled()) ==> *final(metrics) == *old(metrics),
    {
        match readback {
            CaptureReadback::BlitFailed => Err(CaptureError::BlitFailed),
            CaptureReadback::NoScanlines => Err(CaptureError::ReadbackFailed),
            CaptureReadback::Data(mut data) => {
                let w = self.capture_region.width();
                let h = self.capture_region.height();
                proof {
                    assert((w as int) * (h as int) * 4 < 0x1_0000_0000_0000_0000)
                        by (nonlinear_arith)
                        requires
                            0 < w as int <= 0x7fff_ffff,
                            0 < h as int <= 0x7fff_ffff,
                    ;
                }
                let expected: u64 = (w as u64) * (h as u64) * 4;
                if (data.len() as u64) != expected {
                    return Err(CaptureError::MalformedBuffer);
                }
                let ghost ongoing0 = old(metrics).spec_ongoing();
                let ghost completed0 = old(metrics).spec_completed();
                metrics.begin("shuffle");
                let ghost t1: u64 = if old(metrics).is_enabled() {
                    choose|t: u64| (*metrics).spec_ongoing() == upsert(ongoing0, "shuffle"@, t)
                } else {
                    0
                };
                proof {
                    if old(metrics).is_enabled() {
                        lemma_has_key_upsert(ongoing0, "shuffle"@, t1);
                        lemma_remove_upsert(ongoing0, "shuffle"@, t1);
                    }
                }
                bgra_to_rgba(&mut data);
                metrics.end("shuffle");
                let ghost d1: u64 = if old(metrics).is_enabled() {
                    choose|d: u64| (*metrics).spec_completed() == upsert(completed0, "shuffle"@, d)
                } else {
                    0
                };
                let ghost ongoing2 = (*metrics).spec_ongoing();
                metrics.begin("image");
                let ghost t2: u64 = if old(metrics).is_enabled() {
                    choose|t: u64| (*metrics).spec_ongoing() == upsert(ongoing2, "image"@, t)
                } else {
                    0
                };
                proof {
                    if old(metrics).is_enabled() {
                        lemma_has_key_upsert(ongoing2, "image"@, t2);
                        lemma_remove_upsert(ongoing2, "image"@, t2);
                    }
                }
                let pb = PixelBuffer { width: w as u32, height: h as u32, data };
                metrics.end("image");
                proof {
                    if old(metrics).is_enabled() {
                        let d2: u64 = choose|d: u64|
                            (*metrics).spec_completed() == upsert(
                                upsert(completed0, "shuffle"@, d1),
                                "image"@,
                                d,
                            );
                        assert((*metrics).spec_completed() == upsert(
                            upsert(completed0, "shuffle"@, d1),
                            "image"@,
                            d2,
                        ));
                    }
                }
                Ok(pb)
            },
        }
    }
}

/// For a capture region equal to the monitor's full rectangle, the pixel
/// buffer a successful capture returns has the width and height of the
/// monitor's rectangle, and `width * height * 4` bytes.
pub proof fn lemma_full_bounds_capture_dims(c: MonitorRegionCapturer, pb: PixelBuffer)
    requires
        c.wf(),
        c.capture_region == c.monitor.rect,
        pb.wf(),
        pb.width as int == c.capture_region.spec_width(),
        pb.height as int == c.capture_region.spec_height(),
    ensures
        pb.width as int == c.monitor.rect.spec_width(),
        pb.height as int == c.monitor.rect.spec_height(),
        pb.data@.len() == c.monitor.rect.spec_width() * c.monitor.rect.spec_height() * 4,
{
    assert(pb.data@.len() == (pb.width * pb.height * 4) as int);
    assert((pb.width as int) * (pb.height as int) * 4 == c.monitor.rect.spec_width()
        * c.monitor.rect.spec_height() * 4) by (nonlinear_arith)
        requires
            pb.width as int == c.monitor.rect.spec_width(),
            pb.height as int == c.monitor.rect.spec_height(),
    ;
}

} // verus!
