//! The state of a `v4l2loopback` camera: the output format chosen for the input format,
//! the devices it writes to, and what it writes for each frame.

use vstd::prelude::*;
use vstd::string::*;

use crate::convert::{i420_write_extent, lemma_even_sizes_stay_in_frame, short_input_message, write_extent};
use crate::error::{Error, Result};
use crate::formats::{
    is_unsupported_format_error, lemma_fourcc_round_trip, spec_format_of_fourcc, PixelFormat,
};
use crate::fourcc::{
    spec_fourcc_of, FourCc, FOURCC_24BG, FOURCC_ABGR, FOURCC_I420, FOURCC_J400, FOURCC_NV12,
    FOURCC_RAW, FOURCC_UYVY, FOURCC_YUY2, V4L2_PIX_FMT_GREY, V4L2_PIX_FMT_NV12, V4L2_PIX_FMT_UYVY, V4L2_PIX_FMT_YUV420,
    V4L2_PIX_FMT_YUYV,
};
use crate::v4l2::{is_invalid_argument, names_view};

verus! {

/// The format a device is given for frames of `frame` format, and its V4L2 code: RGB and
/// BGR are converted to I420; the YUV formats and grayscale are passed on as they are; RGBA
/// is not supported.
pub open spec fn spec_output_format(frame: PixelFormat) -> Option<(PixelFormat, FourCc)> {
    match frame {
        PixelFormat::Rgb | PixelFormat::Bgr => Some((PixelFormat::I420, V4L2_PIX_FMT_YUV420)),
        PixelFormat::Gray => Some((PixelFormat::Gray, V4L2_PIX_FMT_GREY)),
        PixelFormat::I420 => Some((PixelFormat::I420, V4L2_PIX_FMT_YUV420)),
        PixelFormat::Nv12 => Some((PixelFormat::Nv12, V4L2_PIX_FMT_NV12)),
        PixelFormat::Yuyv => Some((PixelFormat::Yuyv, V4L2_PIX_FMT_YUYV)),
        PixelFormat::Uyvy => Some((PixelFormat::Uyvy, V4L2_PIX_FMT_UYVY)),
        PixelFormat::Rgba => None,
    }
}

/// Whether frames of `format` are converted to I420 before they are written.
pub open spec fn is_converted(format: PixelFormat) -> bool {
    format == PixelFormat::Rgb || format == PixelFormat::Bgr
}

/// The formats and sizes of a camera's frames.
pub struct OutputPlan {
    pub width: u32,
    pub height: u32,
    /// The format of the frames the camera is sent.
    pub frame_format: PixelFormat,
    /// The format of the frames written to the device.
    pub native_format: PixelFormat,
    /// The V4L2 code of `native_format`, set on the device.
    pub v4l2_fourcc: FourCc,
    /// The number of bytes written to the device per frame.
    pub out_frame_size: usize,
}

impl OutputPlan {
    /// The plan is the one `plan_output` makes for its formats and sizes.
    pub open spec fn is_valid(self) -> bool {
        &&& spec_output_format(self.frame_format) == Some((self.native_format, self.v4l2_fourcc))
        &&& self.frame_format.frame_size_fits(self.width, self.height)
        &&& self.native_format.frame_size_fits(self.width, self.height)
        &&& self.out_frame_size == self.native_format.spec_frame_size(self.width, self.height)
    }
}

/// The plan for frames whose format has the FourCC `frame_fourcc`, if it names a supported
/// format. The code is the one a camera's format is known by once aliases (such as `YU12`
/// for `I420`) are resolved; resolving them is the caller's.
pub open spec fn spec_plan(width: u32, height: u32, frame_fourcc: FourCc) -> Option<OutputPlan> {
    match spec_format_of_fourcc(frame_fourcc) {
        Some(f) => match spec_output_format(f) {
            Some((n, v)) => Some(
                OutputPlan {
                    width,
                    height,
                    frame_format: f,
                    native_format: n,
                    v4l2_fourcc: v,
                    out_frame_size: n.spec_frame_size(width, height) as usize,
                },
            ),
            None => None,
        },
        None => None,
    }
}

/// The frame sizes of the plan for `frame_fourcc` fit in `usize`. A code that names no
/// format, or a format that is not supported (RGBA), is refused before any size is computed.
pub open spec fn plan_fits(width: u32, height: u32, frame_fourcc: FourCc) -> bool {
    match spec_format_of_fourcc(frame_fourcc) {
        Some(f) => match spec_output_format(f) {
            Some((n, _)) => f.frame_size_fits(width, height) && n.frame_size_fits(width, height),
            None => true,
        },
        None => true,
    }
}

/// Whether the frame sizes of the plan for `frame_fourcc` fit in `usize` (see `plan_fits`).
pub fn frame_sizes_fit(width: u32, height: u32, frame_fourcc: FourCc) -> (fits: bool)
    ensures
        fits == plan_fits(width, height, frame_fourcc),
{
    let w = width as u128;
    let h = height as u128;
    assert(w * h <= 0xffff_ffff_ffff_ffff) by (nonlinear_arith)
        requires
            w <= 0xffff_ffff,
            h <= 0xffff_ffff,
    ;
    let pixels = w * h;
    let max = usize::MAX as u128;
    assert(width * height * 6 / 2 == pixels * 3 && width * height * 8 / 2 == pixels * 4 && width
        * height * 2 / 2 == pixels && width * height * 4 / 2 == pixels * 2 && width * height * 3
        == pixels * 3) by (nonlinear_arith)
        requires
            pixels == width * height,
    ;
    match PixelFormat::from_canonical_fourcc(frame_fourcc) {
        Ok(format) => match format {
            PixelFormat::Rgb | PixelFormat::Bgr => pixels * 3 <= max,
            PixelFormat::Rgba => true,
            PixelFormat::Gray => pixels <= max,
            PixelFormat::I420 | PixelFormat::Nv12 => pixels * 3 <= max,
            PixelFormat::Yuyv | PixelFormat::Uyvy => pixels * 2 <= max,
        },
        Err(_) => true,
    }
}

/// Chooses the device format and frame size for `width` x `height` frames whose format has
/// the FourCC `frame_fourcc`. Unsupported codes, RGBA among them, are refused.
pub fn plan_output(width: u32, height: u32, frame_fourcc: FourCc) -> (res: Result<OutputPlan>)
    requires
        plan_fits(width, height, frame_fourcc),
    ensures
        spec_plan(width, height, frame_fourcc) matches Some(p) ==> (res matches Ok(q) && q == p
            && q.is_valid()),
        spec_plan(width, height, frame_fourcc) is None ==> (res matches Err(e)
            && is_unsupported_format_error(e)),
{
    let frame_format = PixelFormat::from_canonical_fourcc(frame_fourcc)?;
    let (native_format, v4l2_fourcc) = match frame_format {
        PixelFormat::Rgb | PixelFormat::Bgr => (PixelFormat::I420, V4L2_PIX_FMT_YUV420),
        PixelFormat::Gray => (PixelFormat::Gray, V4L2_PIX_FMT_GREY),
        PixelFormat::I420 => (PixelFormat::I420, V4L2_PIX_FMT_YUV420),
        PixelFormat::Nv12 => (PixelFormat::Nv12, V4L2_PIX_FMT_NV12),
        PixelFormat::Yuyv => (PixelFormat::Yuyv, V4L2_PIX_FMT_YUYV),
        PixelFormat::Uyvy => (PixelFormat::Uyvy, V4L2_PIX_FMT_UYVY),
        PixelFormat::Rgba => {
            proof {
                reveal_strlit("Unsupported image format.");
            }
            return Err(Error::runtime("Unsupported image format."));
        },
    };
    let out_frame_size = native_format.frame_size(width, height);
    Ok(OutputPlan { width, height, frame_format, native_format, v4l2_fourcc, out_frame_size })
}

/// The names joined with `", "` between them.
pub open spec fn join_names(names: Seq<Seq<char>>) -> Seq<char>
    decreases names.len(),
{
    if names.len() == 0 {
        Seq::empty()
    } else if names.len() == 1 {
        names[0]
    } else {
        join_names(names.drop_last()) + ", "@ + names.last()
    }
}

/// Whether `plan` writes frames of `native` layout and sets the device to the V4L2 code with
/// the four characters `c0 c1 c2 c3`.
pub open spec fn sets_device_to(plan: Option<OutputPlan>, native: PixelFormat, c0: u8, c1: u8, c2: u8, c3: u8) -> bool {
    plan matches Some(p) && p.native_format == native && p.v4l2_fourcc == spec_fourcc_of(c0, c1, c2, c3)
}

/// The device is set to the V4L2 code of the layout that is written to it: packed YUYV
/// (`YUYV`) for YUYV frames, packed UYVY (`UYVY`) for UYVY frames, planar I420 (`YU12`) for
/// I420 frames and for RGB and BGR frames, which are converted to I420, NV12 (`NV12`) for
/// NV12 frames and grayscale (`GREY`) for grayscale frames. RGBA frames get no plan.
pub proof fn lemma_device_codes(width: u32, height: u32)
    ensures
        sets_device_to(spec_plan(width, height, FOURCC_YUY2), PixelFormat::Yuyv, 0x59, 0x55, 0x59, 0x56),
        sets_device_to(spec_plan(width, height, FOURCC_UYVY), PixelFormat::Uyvy, 0x55, 0x59, 0x56, 0x59),
        sets_device_to(spec_plan(width, height, FOURCC_I420), PixelFormat::I420, 0x59, 0x55, 0x31, 0x32),
        sets_device_to(spec_plan(width, height, FOURCC_RAW), PixelFormat::I420, 0x59, 0x55, 0x31, 0x32),
        sets_device_to(spec_plan(width, height, FOURCC_24BG), PixelFormat::I420, 0x59, 0x55, 0x31, 0x32),
        sets_device_to(spec_plan(width, height, FOURCC_NV12), PixelFormat::Nv12, 0x4e, 0x56, 0x31, 0x32),
        sets_device_to(spec_plan(width, height, FOURCC_J400), PixelFormat::Gray, 0x47, 0x52, 0x45, 0x59),
        spec_plan(width, height, FOURCC_ABGR) is None,
{
    lemma_fourcc_round_trip(PixelFormat::Yuyv);
    lemma_fourcc_round_trip(PixelFormat::Uyvy);
    lemma_fourcc_round_trip(PixelFormat::I420);
    lemma_fourcc_round_trip(PixelFormat::Rgb);
    lemma_fourcc_round_trip(PixelFormat::Bgr);
    lemma_fourcc_round_trip(PixelFormat::Nv12);
    lemma_fourcc_round_trip(PixelFormat::Gray);
    lemma_fourcc_round_trip(PixelFormat::Rgba);
}

/// A plan's frames keep their size and its sizes are those of its formats: the frame and
/// the device have the same width and height, and the device gets one frame of its native
/// format.
pub proof fn lemma_plan_sizes(width: u32, height: u32, frame_fourcc: FourCc)
    requires
        plan_fits(width, height, frame_fourcc),
    ensures
        spec_plan(width, height, frame_fourcc) matches Some(p) ==> p.width == width
            && p.height == height && spec_format_of_fourcc(frame_fourcc) == Some(p.frame_format)
            && p.out_frame_size == p.native_format.spec_frame_size(width, height),
{
}

/// The frame sizes fit exactly where every byte count computed for the plan is at most
/// `usize::MAX`: three bytes per pixel for RGB and BGR (and one and a half for the I420 they
/// become), one for grayscale, one and a half for I420 and NV12 (whose size is computed as
/// three bytes per pixel halved), two for YUYV and UYVY. Nothing is computed for RGBA or for
/// a code that names no format, so those always fit.
pub proof fn lemma_plan_fits_exactly(width: u32, height: u32, frame_fourcc: FourCc)
    ensures
        plan_fits(width, height, frame_fourcc) <==> match spec_format_of_fourcc(frame_fourcc) {
            Some(PixelFormat::Rgb) | Some(PixelFormat::Bgr) => width * height * 3 <= usize::MAX,
            Some(PixelFormat::Gray) => width * height <= usize::MAX,
            Some(PixelFormat::I420) | Some(PixelFormat::Nv12) => width * height * 3 <= usize::MAX,
            Some(PixelFormat::Yuyv) | Some(PixelFormat::Uyvy) => width * height * 2 <= usize::MAX,
            Some(PixelFormat::Rgba) => true,
            None => true,
        },
        spec_format_of_fourcc(frame_fourcc) is None ==> plan_fits(width, height, frame_fourcc),
{
    let p = width * height;
    assert(p >= 0 && p * 6 / 2 == p * 3 && p * 3 / 2 <= p * 3 && p * 2 / 2 == p && p * 4 / 2
        == p * 2) by (nonlinear_arith)
        requires
            p == width * height,
    ;
}

/// Joining two non-empty lists of names gives the join of the first, `", "`, and the join
/// of the second: every two neighbouring names are separated by `", "`.
pub proof fn lemma_join_names_append(a: Seq<Seq<char>>, b: Seq<Seq<char>>)
    requires
        a.len() > 0,
        b.len() > 0,
    ensures
        join_names(a + b) == join_names(a) + ", "@ + join_names(b),
    decreases b.len(),
{
    let ab = a + b;
    if b.len() == 1 {
        assert(ab.drop_last() =~= a);
        assert(ab.last() == b[0]);
    } else {
        lemma_join_names_append(a, b.drop_last());
        assert(ab.drop_last() =~= a + b.drop_last());
        assert(ab.last() == b.last());
        assert(join_names(a + b.drop_last()) + ", "@ + b.last() =~= join_names(a) + ", "@ + (
        join_names(b.drop_last()) + ", "@ + b.last()));
    }
}

/// The join of no names is empty and the join of one name is that name.
pub proof fn lemma_join_names_short(name: Seq<char>)
    ensures
        join_names(Seq::empty()) == Seq::<char>::empty(),
        join_names(seq![name]) == name,
{
}

/// What to do with a frame sent to the camera.
pub enum FrameAction {
    /// Nothing: the camera is stopped.
    Skip,
    /// Convert the packed RGB frame to I420 and write the converted frame.
    ConvertRgb,
    /// Convert the packed BGR frame to I420 and write the converted frame.
    ConvertBgr,
    /// Write the frame as it was sent.
    WriteFrame,
}

/// A running or stopped `v4l2loopback` camera, apart from its open file descriptors and
/// its conversion buffer.
pub struct LoopbackState {
    running: bool,
    devices: Vec<String>,
    plan: OutputPlan,
}

impl LoopbackState {
    /// Whether the camera still writes frames.
    pub closed spec fn spec_running(&self) -> bool {
        self.running
    }

    /// The devices the camera writes to.
    pub closed spec fn spec_devices(&self) -> Seq<Seq<char>> {
        names_view(self.devices@)
    }

    /// The camera's formats and sizes.
    pub closed spec fn spec_plan(&self) -> OutputPlan {
        self.plan
    }

    /// The plan is one that `plan_output` makes.
    pub closed spec fn wf(&self) -> bool {
        self.plan.is_valid()
    }

    /// A well-formed camera's plan is valid: its sizes fit and its output frame size is
    /// that of its native format.
    pub proof fn lemma_wf_plan_valid(&self)
        requires
            self.wf(),
        ensures
            self.spec_plan().is_valid(),
    {
    }

    /// Whether a frame of `len` bytes can be sent: where a frame is converted and long
    /// enough, every byte the conversion writes must fall inside one output frame, which
    /// is so at even sizes and at some odd ones (see `write_extent`).
    pub open spec fn frame_len_accepted(&self, len: int) -> bool {
        let p = self.spec_plan();
        (is_converted(p.frame_format) && len >= p.frame_format.spec_frame_size(p.width, p.height))
            ==> write_extent(p.width as int, p.height as int) <= p.out_frame_size
    }

    /// Whether a frame of `len` bytes can be sent (see `frame_len_accepted`). Every length
    /// is accepted where the width and the height are even.
    pub fn accepts_frame_len(&self, len: usize) -> (accepted: bool)
        requires
            self.wf(),
        ensures
            accepted == self.frame_len_accepted(len as int),
            self.spec_plan().width % 2 == 0 && self.spec_plan().height % 2 == 0 ==> accepted,
    {
        let p = &self.plan;
        match p.frame_format {
            PixelFormat::Rgb | PixelFormat::Bgr => {
                proof {
                    if p.width % 2 == 0 && p.height % 2 == 0 {
                        lemma_even_sizes_stay_in_frame(p.width, p.height);
                    }
                }
                let expected = p.frame_format.frame_size(p.width, p.height);
                len < expected || i420_write_extent(p.width, p.height) <= p.out_frame_size
            },
            _ => true,
        }
    }

    /// A running camera writing to `devices` with formats and sizes from `plan`.
    pub fn new(plan: OutputPlan, devices: Vec<String>) -> (state: Self)
        requires
            plan.is_valid(),
        ensures
            state.wf(),
            state.spec_running(),
            state.spec_devices() == names_view(devices@),
            state.spec_plan() == plan,
    {
        LoopbackState { running: true, devices, plan }
    }

    /// The number of bytes of the buffer that converted frames are written to: one output
    /// frame where frames are converted, none otherwise.
    pub fn conversion_buffer_len(&self) -> (len: usize)
        requires
            self.wf(),
        ensures
            len == if is_converted(self.spec_plan().frame_format) {
                self.spec_plan().out_frame_size as int
            } else {
                0
            },
    {
        match self.plan.frame_format {
            PixelFormat::Rgb | PixelFormat::Bgr => self.plan.out_frame_size,
            _ => 0,
        }
    }

    /// Stops the camera; returns whether it was running, that is, whether its devices
    /// are still to be closed. Stopping a stopped camera does nothing.
    pub fn stop(&mut self) -> (was_running: bool)
        requires
            old(self).wf(),
        ensures
            final(self).wf(),
            was_running == old(self).spec_running(),
            !final(self).spec_running(),
            final(self).spec_devices() == old(self).spec_devices(),
            final(self).spec_plan() == old(self).spec_plan(),
    {
        let was_running = self.running;
        self.running = false;
        was_running
    }

    /// Decides what to do with a frame of `frame_len` bytes: nothing once stopped; an error
    /// for a frame shorter than one frame of the camera's format; a conversion to I420 for
    /// RGB and BGR, whose writes then fall inside one output frame; the frame itself for the
    /// other formats, which then holds at least one output frame.
    pub fn prepare_frame(&self, frame_len: usize) -> (res: Result<FrameAction>)
        requires
            self.wf(),
            self.spec_running() ==> self.frame_len_accepted(frame_len as int),
        ensures
            ({
                let p = self.spec_plan();
                if !self.spec_running() {
                    res matches Ok(FrameAction::Skip)
                } else if frame_len < p.frame_format.spec_frame_size(p.width, p.height) {
                    res matches Err(e) && is_invalid_argument(e, short_input_message())
                } else if p.frame_format == PixelFormat::Rgb {
                    &&& res matches Ok(FrameAction::ConvertRgb)
                    &&& write_extent(p.width as int, p.height as int) <= p.out_frame_size
                } else if p.frame_format == PixelFormat::Bgr {
                    &&& res matches Ok(FrameAction::ConvertBgr)
                    &&& write_extent(p.width as int, p.height as int) <= p.out_frame_size
                } else {
                    &&& res matches Ok(FrameAction::WriteFrame)
                    &&& frame_len >= p.out_frame_size
                }
            }),
    {
        if !self.running {
            return Ok(FrameAction::Skip);
        }
        let expected_frame_size = self.plan.frame_format.frame_size(
            self.plan.width,
            self.plan.height,
        );
        if frame_len < expected_frame_size {
            proof {
                reveal_strlit("input frame is smaller than expected");
            }
            return Err(Error::invalid_argument("input frame is smaller than expected"));
        }
        match self.plan.frame_format {
            PixelFormat::Rgb => Ok(FrameAction::ConvertRgb),
            PixelFormat::Bgr => Ok(FrameAction::ConvertBgr),
            _ => Ok(FrameAction::WriteFrame),
        }
    }

    /// The camera's formats and sizes.
    pub fn plan(&self) -> (plan: &OutputPlan)
        ensures
            *plan == self.spec_plan(),
    {
        &self.plan
    }

    /// The number of bytes written to the devices per frame.
    pub fn out_frame_size(&self) -> (size: usize)
        ensures
            size == self.spec_plan().out_frame_size,
    {
        self.plan.out_frame_size
    }

    /// Whether the camera still writes frames.
    pub fn is_running(&self) -> (running: bool)
        ensures
            running == self.spec_running(),
    {
        self.running
    }

    /// The devices the camera writes to.
    pub fn devices(&self) -> (devices: &Vec<String>)
        ensures
            names_view(devices@) == self.spec_devices(),
    {
        &self.devices
    }

    /// The devices joined with `", "`.
    pub fn device(&self) -> (names: String)
        ensures
            names@ == join_names(self.spec_devices()),
    {
        let ghost all = names_view(self.devices@);
        let mut joined = String::new();
        let mut i: usize = 0;
        while i < self.devices.len()
            invariant
                all == names_view(self.devices@),
                i <= self.devices@.len(),
                joined@ == join_names(all.take(i as int)),
            decreases self.devices@.len() - i,
        {
            proof {
                assert(all.take(i + 1).drop_last() =~= all.take(i as int));
                assert(all.take(i + 1).last() == self.devices@[i as int]@);
            }
            if i > 0 {
                joined.append(", ");
            } else {
                assert(all.take(1) =~= seq![self.devices@[0]@]);
            }
            joined.append(self.devices[i].as_str());
            i = i + 1;
        }
        assert(all.take(self.devices@.len() as int) =~= all);
        joined
    }

    /// The format of the frames written to the devices.
    pub fn native_format(&self) -> (format: PixelFormat)
        ensures
            format == self.spec_plan().native_format,
    {
        self.plan.native_format
    }

    /// The FourCC of the format written to the devices.
    pub fn native_fourcc(&self) -> (code: FourCc)
        ensures
            code == self.spec_plan().native_format.spec_fourcc(),
    {
        self.plan.native_format.fourcc()
    }

    /// The V4L2 code set on the devices.
    pub fn v4l2_fourcc(&self) -> (code: FourCc)
        ensures
            code == self.spec_plan().v4l2_fourcc,
    {
        self.plan.v4l2_fourcc
    }
}

} // verus!
