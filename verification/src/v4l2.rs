//! The device side of the Linux `v4l2loopback` backend: ioctl request numbers, what a device
//! must report to be used, the errors for devices that cannot be used, the device nodes that
//! automatic detection tries, and which devices a camera ends up holding. The system calls
//! themselves are made by the caller, which hands their outcomes to the functions here.

use vstd::prelude::*;
use vstd::string::*;

use crate::error::{Error, Result};

verus! {

/// Capability bit of a device that accepts video output.
pub const V4L2_CAP_VIDEO_OUTPUT: u32 = 0x0000_0002;
/// Buffer type of video output, used when setting the format.
pub const V4L2_BUF_TYPE_VIDEO_OUTPUT: u32 = 2;
/// Direction bit of an ioctl that writes to the kernel.
pub const IOC_WRITE: u32 = 1;
/// Direction bit of an ioctl that reads from the kernel.
pub const IOC_READ: u32 = 2;
/// The ioctl type of V4L2 requests, the character `V`.
pub const V4L2_IOC_TYPE: u8 = 0x56;
/// Size in bytes of `struct v4l2_capability`.
pub const V4L2_CAPABILITY_SIZE: usize = 104;
/// Size in bytes of `struct v4l2_format`.
pub const V4L2_FORMAT_SIZE: usize = 208;
/// The driver name that `v4l2loopback` devices report.
pub const V4L2_LOOPBACK_DRIVER: [u8; 13] = [
    0x76, 0x34, 0x6c, 0x32, 0x20, 0x6c, 0x6f, 0x6f, 0x70, 0x62, 0x61, 0x63, 0x6b,
];

/// The bytes of `"v4l2 loopback"`.
pub open spec fn loopback_driver_name() -> Seq<u8> {
    seq![118u8, 52u8, 108u8, 50u8, 32u8, 108u8, 111u8, 111u8, 112u8, 98u8, 97u8, 99u8, 107u8]
}

/// The driver name constant holds `"v4l2 loopback"`.
pub proof fn lemma_loopback_driver_constant()
    ensures
        V4L2_LOOPBACK_DRIVER@ == loopback_driver_name(),
{
    assert(V4L2_LOOPBACK_DRIVER@ =~= loopback_driver_name());
}

// ---------------------------------------------------------------------------------------
// ioctl request numbers
// ---------------------------------------------------------------------------------------

/// The Linux ioctl request number for direction `dir`, type `type_`, number `nr` and
/// argument size `size`: bits 0-7 the number, 8-15 the type, 16-29 the size, 30-31 the
/// direction.
pub open spec fn spec_ioc(dir: int, type_: int, nr: int, size: int) -> int {
    dir * 0x4000_0000 + size * 0x1_0000 + type_ * 0x100 + nr
}

/// Encodes an ioctl request number.
pub fn ioc(dir: u32, type_: u8, nr: u8, size: usize) -> (request: u64)
    requires
        dir < 4,
        size < 0x4000,
    ensures
        request == spec_ioc(dir as int, type_ as int, nr as int, size as int),
{
    let d = dir as u64;
    let t = type_ as u64;
    let n = nr as u64;
    let s = size as u64;
    assert((d << 30u64) | (t << 8u64) | n | (s << 16u64) == d * 0x4000_0000 + s * 0x1_0000 + t
        * 0x100 + n) by (bit_vector)
        requires
            d < 4,
            t < 256,
            n < 256,
            s < 0x4000,
    ;
    (d << 30u64) | (t << 8u64) | n | (s << 16u64)
}

/// The request number of an ioctl that reads a `size`-byte argument.
pub fn ior(type_: u8, nr: u8, size: usize) -> (request: u64)
    requires
        size < 0x4000,
    ensures
        request == spec_ioc(IOC_READ as int, type_ as int, nr as int, size as int),
{
    ioc(IOC_READ, type_, nr, size)
}

/// The request number of an ioctl that writes and reads a `size`-byte argument (direction
/// `IOC_READ | IOC_WRITE`, which is 3).
pub fn iowr(type_: u8, nr: u8, size: usize) -> (request: u64)
    requires
        size < 0x4000,
    ensures
        request == spec_ioc(3, type_ as int, nr as int, size as int),
{
    assert(IOC_READ | IOC_WRITE == 3u32) by (bit_vector);
    ioc(IOC_READ | IOC_WRITE, type_, nr, size)
}

/// `VIDIOC_QUERYCAP`: read the `struct v4l2_capability` of a device.
pub fn vidioc_querycap() -> (request: u64)
    ensures
        request == 0x8068_5600,
{
    ior(V4L2_IOC_TYPE, 0, V4L2_CAPABILITY_SIZE)
}

/// `VIDIOC_S_FMT`: set the `struct v4l2_format` of a device.
pub fn vidioc_s_fmt() -> (request: u64)
    ensures
        request == 0xc0d0_5605,
{
    iowr(V4L2_IOC_TYPE, 5, V4L2_FORMAT_SIZE)
}

// ---------------------------------------------------------------------------------------
// Device validation
// ---------------------------------------------------------------------------------------

/// `prefix` is what comes before the first NUL byte of `bytes` (all of `bytes` if none).
pub open spec fn is_nul_prefix(bytes: Seq<u8>, prefix: Seq<u8>) -> bool {
    &&& prefix.len() <= bytes.len()
    &&& prefix == bytes.subrange(0, prefix.len() as int)
    &&& forall|i: int| 0 <= i < prefix.len() ==> prefix[i] != 0
    &&& prefix.len() < bytes.len() ==> bytes[prefix.len() as int] == 0
}

/// The bytes before the first NUL byte of `bytes`, or all of them if there is none.
pub fn nul_terminated_bytes(bytes: &[u8]) -> (prefix: &[u8])
    ensures
        is_nul_prefix(bytes@, prefix@),
{
    let mut end: usize = 0;
    while end < bytes.len() && bytes[end] != 0
        invariant
            end <= bytes@.len(),
            forall|i: int| 0 <= i < end ==> bytes@[i] != 0,
        decreases bytes@.len() - end,
    {
        end = end + 1;
    }
    vstd::slice::slice_subrange(bytes, 0, end)
}

/// Whether `name`, taken up to its first NUL byte, is `"v4l2 loopback"`.
fn is_loopback_driver(name: &[u8]) -> (matches: bool)
    ensures
        matches == is_nul_prefix(name@, loopback_driver_name()),
{
    let prefix = nul_terminated_bytes(name);
    proof {
        lemma_loopback_driver_constant();
    }
    if prefix.len() != 13 {
        proof {
            if is_nul_prefix(name@, loopback_driver_name()) {
                lemma_nul_prefix_unique(name@, prefix@, loopback_driver_name());
            }
        }
        return false;
    }
    let mut i: usize = 0;
    while i < 13
        invariant
            prefix@.len() == 13,
            is_nul_prefix(name@, prefix@),
            V4L2_LOOPBACK_DRIVER@ == loopback_driver_name(),
            i <= 13,
            forall|k: int| 0 <= k < i ==> prefix@[k] == loopback_driver_name()[k],
        decreases 13 - i,
    {
        if prefix[i] != V4L2_LOOPBACK_DRIVER[i] {
            proof {
                if is_nul_prefix(name@, loopback_driver_name()) {
                    lemma_nul_prefix_unique(name@, prefix@, loopback_driver_name());
                }
            }
            return false;
        }
        i = i + 1;
    }
    assert(prefix@ =~= loopback_driver_name());
    true
}

/// What precedes the first NUL byte is determined by the bytes.
pub proof fn lemma_nul_prefix_unique(bytes: Seq<u8>, a: Seq<u8>, b: Seq<u8>)
    requires
        is_nul_prefix(bytes, a),
        is_nul_prefix(bytes, b),
    ensures
        a == b,
{
    if a.len() < b.len() {
        assert(b[a.len() as int] == bytes[a.len() as int]);
    } else if b.len() < a.len() {
        assert(a[b.len() as int] == bytes[b.len() as int]);
    }
    assert(a =~= b);
}

/// `prefix`, `name` and `suffix` joined.
fn device_message(prefix: &str, name: &str, suffix: &str) -> (message: String)
    ensures
        message@ == prefix@ + name@ + suffix@,
{
    String::from_str(prefix).concat(name).concat(suffix)
}

/// Whether `err` is an `InvalidArgument` error with message `m`.
pub open spec fn is_invalid_argument(err: Error, m: Seq<char>) -> bool {
    err matches Error::InvalidArgument(text) && text@ == m
}

/// Whether `err` is a `Runtime` error with message `m`.
pub open spec fn is_runtime(err: Error, m: Seq<char>) -> bool {
    err matches Error::Runtime(text) && text@ == m
}

/// Checks what a device reported to `VIDIOC_QUERYCAP` (`queried` is false where the query
/// failed): it must be a video output device whose driver is `v4l2 loopback`.
pub fn validate_capability(queried: bool, capabilities: u32, driver: &[u8], device_name: &str) -> (res:
    Result<()>)
    ensures
        !queried ==> (res matches Err(e) && is_invalid_argument(
            e,
            "Device capabilities of "@ + device_name@ + " could not be queried."@,
        )),
        queried && capabilities & V4L2_CAP_VIDEO_OUTPUT == 0 ==> (res matches Err(e)
            && is_invalid_argument(
            e,
            "Device "@ + device_name@ + " is not a video output device."@,
        )),
        queried && capabilities & V4L2_CAP_VIDEO_OUTPUT != 0 && !is_nul_prefix(
            driver@,
            loopback_driver_name(),
        ) ==> (res matches Err(e) && is_invalid_argument(
            e,
            "Device "@ + device_name@ + " is not a V4L2 device."@,
        )),
        queried && capabilities & V4L2_CAP_VIDEO_OUTPUT != 0 && is_nul_prefix(
            driver@,
            loopback_driver_name(),
        ) ==> res is Ok,
{
    if !queried {
        return Err(
            Error::InvalidArgument(
                device_message("Device capabilities of ", device_name, " could not be queried."),
            ),
        );
    }
    if capabilities & V4L2_CAP_VIDEO_OUTPUT == 0 {
        return Err(
            Error::InvalidArgument(
                device_message("Device ", device_name, " is not a video output device."),
            ),
        );
    }
    if !is_loopback_driver(driver) {
        return Err(
            Error::InvalidArgument(device_message("Device ", device_name, " is not a V4L2 device.")),
        );
    }
    Ok(())
}

/// Rejects a device name that holds a NUL byte, which no path can hold.
pub fn check_device_name(device_name: &str) -> (res: Result<()>)
    ensures
        res is Ok <==> !device_name.spec_bytes().contains(0u8),
        res matches Err(e) ==> is_invalid_argument(e, "device name must not contain NUL bytes"@),
{
    let bytes = device_name.as_bytes();
    let mut i: usize = 0;
    while i < bytes.len()
        invariant
            bytes@ == device_name.spec_bytes(),
            i <= bytes@.len(),
            forall|k: int| 0 <= k < i ==> bytes@[k] != 0u8,
        decreases bytes@.len() - i,
    {
        if bytes[i] == 0 {
            assert(bytes@[i as int] == 0u8);
            return Err(Error::invalid_argument("device name must not contain NUL bytes"));
        }
        i = i + 1;
    }
    assert(!bytes@.contains(0u8));
    Ok(())
}

/// The error for a device that a camera of this process already holds.
pub fn device_in_use_error(device_name: &str) -> (err: Error)
    ensures
        is_invalid_argument(err, "Device "@ + device_name@ + " is already in use."@),
{
    Error::InvalidArgument(device_message("Device ", device_name, " is already in use."))
}

/// Why opening a device node failed, as the operating system reported it.
pub enum OpenFailure {
    /// The process may not open the device.
    PermissionDenied,
    /// There is no such device node.
    NotFound,
    /// Any other failure, with the system's description of it.
    Other(String),
}

/// The error for a device node that could not be opened. Missing permissions are a
/// runtime error; a missing or otherwise unopenable device is an invalid argument, which
/// lets automatic detection go on to the next device.
pub fn open_failure_error(device_name: &str, failure: OpenFailure) -> (err: Error)
    ensures
        failure is PermissionDenied ==> is_runtime(
            err,
            "Could not access "@ + device_name@
                + " due to missing permissions. Did you add your user to the 'video' group? Run 'usermod -a -G video myusername' and log out and in again."@,
        ),
        failure is NotFound ==> is_invalid_argument(
            err,
            "Device "@ + device_name@ + " does not exist."@,
        ),
        failure matches OpenFailure::Other(detail) ==> is_invalid_argument(
            err,
            "Device "@ + device_name@ + " could not be opened: "@ + detail@,
        ),
{
    match failure {
        OpenFailure::PermissionDenied => Error::Runtime(
            device_message(
                "Could not access ",
                device_name,
                " due to missing permissions. Did you add your user to the 'video' group? Run 'usermod -a -G video myusername' and log out and in again.",
            ),
        ),
        OpenFailure::NotFound => Error::InvalidArgument(
            device_message("Device ", device_name, " does not exist."),
        ),
        OpenFailure::Other(detail) => {
            let message = device_message("Device ", device_name, " could not be opened: ").concat(
                detail.as_str(),
            );
            Error::InvalidArgument(message)
        },
    }
}

/// The error for a device whose format could not be set, with the system's description.
pub fn configure_error(device_name: &str, detail: &str) -> (err: Error)
    ensures
        is_runtime(
            err,
            "Virtual camera device "@ + device_name@ + " could not be configured: "@ + detail@,
        ),
{
    Error::Runtime(
        device_message("Virtual camera device ", device_name, " could not be configured: ").concat(
            detail,
        ),
    )
}

// ---------------------------------------------------------------------------------------
// Device lists
// ---------------------------------------------------------------------------------------

/// The decimal digits of `n`, for `n < 100`.
pub open spec fn decimal(n: int) -> Seq<char> {
    if n < 10 {
        seq![digit_char(n)]
    } else {
        seq![digit_char(n / 10), digit_char(n % 10)]
    }
}

/// The character of the decimal digit `d`.
pub open spec fn digit_char(d: int) -> char {
    if d == 0 {
        '0'
    } else if d == 1 {
        '1'
    } else if d == 2 {
        '2'
    } else if d == 3 {
        '3'
    } else if d == 4 {
        '4'
    } else if d == 5 {
        '5'
    } else if d == 6 {
        '6'
    } else if d == 7 {
        '7'
    } else if d == 8 {
        '8'
    } else {
        '9'
    }
}

fn digit_str(d: u32) -> (s: &'static str)
    requires
        d < 10,
    ensures
        s@ == seq![digit_char(d as int)],
{
    proof {
        reveal_strlit("0");
        reveal_strlit("1");
        reveal_strlit("2");
        reveal_strlit("3");
        reveal_strlit("4");
        reveal_strlit("5");
        reveal_strlit("6");
        reveal_strlit("7");
        reveal_strlit("8");
        reveal_strlit("9");
    }
    if d == 0 {
        "0"
    } else if d == 1 {
        "1"
    } else if d == 2 {
        "2"
    } else if d == 3 {
        "3"
    } else if d == 4 {
        "4"
    } else if d == 5 {
        "5"
    } else if d == 6 {
        "6"
    } else if d == 7 {
        "7"
    } else if d == 8 {
        "8"
    } else {
        "9"
    }
}

/// The number of device nodes `/dev/video0` to `/dev/video99` that automatic detection tries.
pub const DISCOVERY_NODES: u32 = 100;

/// The path of the video device node with the given number, `/dev/video{index}`.
pub open spec fn spec_device_path(index: int) -> Seq<char> {
    "/dev/video"@ + decimal(index)
}

/// The digit character of `d` is its ASCII digit, `'0' + d`.
pub proof fn lemma_digit_char_is_ascii(d: int)
    requires
        0 <= d < 10,
    ensures
        digit_char(d) as int == 48 + d,
{
}

/// The path of node `index` (below 100) is `/dev/video` followed by the ASCII digits of
/// `index`, most significant first and without leading zeros; so the digits read back as
/// `index`, and no two nodes share a path.
pub proof fn lemma_device_path_digits(index: int)
    requires
        0 <= index < 100,
    ensures
        spec_device_path(index).len() == if index < 10 { 11int } else { 12int },
        spec_device_path(index).take(10) == seq!['/', 'd', 'e', 'v', '/', 'v', 'i', 'd', 'e', 'o'],
        index < 10 ==> spec_device_path(index)[10] as int == 48 + index,
        index >= 10 ==> spec_device_path(index)[10] as int == 48 + index / 10
            && spec_device_path(index)[10] as int != 48
            && spec_device_path(index)[11] as int == 48 + index % 10,
        index == if index < 10 {
            spec_device_path(index)[10] as int - 48
        } else {
            (spec_device_path(index)[10] as int - 48) * 10 + (spec_device_path(index)[11] as int
                - 48)
        },
{
    reveal_strlit("/dev/video");
    let p = spec_device_path(index);
    assert(p.take(10) =~= seq!['/', 'd', 'e', 'v', '/', 'v', 'i', 'd', 'e', 'o']);
    if index < 10 {
        lemma_digit_char_is_ascii(index);
        assert(p[10] == digit_char(index));
    } else {
        lemma_digit_char_is_ascii(index / 10);
        lemma_digit_char_is_ascii(index % 10);
        assert(p[10] == digit_char(index / 10));
        assert(p[11] == digit_char(index % 10));
    }
}

/// Distinct nodes have distinct paths.
pub proof fn lemma_device_path_injective(i: int, j: int)
    requires
        0 <= i < 100,
        0 <= j < 100,
        spec_device_path(i) == spec_device_path(j),
    ensures
        i == j,
{
    lemma_device_path_digits(i);
    lemma_device_path_digits(j);
}

/// The path of the video device node with the given number, `/dev/video{index}`.
pub fn device_path(index: u32) -> (path: String)
    requires
        index < DISCOVERY_NODES,
    ensures
        path@ == spec_device_path(index as int),
{
    let path = String::from_str("/dev/video");
    if index < 10 {
        path.concat(digit_str(index))
    } else {
        let path = path.concat(digit_str(index / 10));
        let path = path.concat(digit_str(index % 10));
        assert(path@ =~= "/dev/video"@ + decimal(index as int));
        path
    }
}

/// The devices that automatic detection found, or an error where it found none.
pub fn discovered_devices(found: Vec<String>) -> (res: Result<Vec<String>>)
    ensures
        found@.len() == 0 ==> (res matches Err(e) && is_runtime(
            e,
            "No v4l2 loopback device found at /dev/video[0-99]. Did you run 'modprobe v4l2loopback'? See also pyvirtualcam's documentation."@,
        )),
        found@.len() > 0 ==> res == Ok::<Vec<String>, Error>(found),
{
    if found.len() == 0 {
        return Err(
            Error::runtime(
                "No v4l2 loopback device found at /dev/video[0-99]. Did you run 'modprobe v4l2loopback'? See also pyvirtualcam's documentation.",
            ),
        );
    }
    Ok(found)
}

/// The devices that were asked for by name, or an error where the list is empty.
pub fn requested_devices(devices: Vec<String>) -> (res: Result<Vec<String>>)
    ensures
        devices@.len() == 0 ==> (res matches Err(e) && is_invalid_argument(
            e,
            "Device list cannot be empty."@,
        )),
        devices@.len() > 0 ==> res == Ok::<Vec<String>, Error>(devices),
{
    if devices.len() == 0 {
        return Err(Error::invalid_argument("Device list cannot be empty."));
    }
    Ok(devices)
}

/// The views of a list of strings.
pub open spec fn names_view(names: Seq<String>) -> Seq<Seq<char>> {
    names.map_values(|s: String| s@)
}

/// What to do after a device has been tried.
pub enum OpenStep {
    /// Try the next device of the list.
    Next,
    /// Stop trying: the camera has its device.
    Done,
    /// Close what was opened and fail with this error.
    Fail(Error),
}

/// Which devices a camera opens. With automatic detection the first detected device that
/// opens and configures is used, and a device that cannot be opened as an invalid argument
/// is passed over; with a list of names every device of the list must open.
pub struct DeviceSelection {
    auto_detect: bool,
    opened: Vec<String>,
}

impl DeviceSelection {
    /// With automatic detection at most one device is held.
    #[verifier::type_invariant]
    spec fn at_most_one_when_detected(self) -> bool {
        self.auto_detect ==> self.opened@.len() <= 1
    }

    /// Whether devices were detected rather than named.
    pub closed spec fn spec_auto_detect(&self) -> bool {
        self.auto_detect
    }

    /// The devices opened and configured so far, in order.
    pub closed spec fn spec_opened(&self) -> Seq<Seq<char>> {
        names_view(self.opened@)
    }

    /// A selection that has opened no device yet.
    pub fn new(auto_detect: bool) -> (selection: Self)
        ensures
            selection.spec_auto_detect() == auto_detect,
            selection.spec_opened() == Seq::<Seq<char>>::empty(),
    {
        let selection = DeviceSelection { auto_detect, opened: Vec::new() };
        assert(selection.spec_opened() =~= Seq::<Seq<char>>::empty());
        selection
    }

    /// Whether the selection needs no further device.
    pub fn is_done(&self) -> (done: bool)
        ensures
            done == (self.spec_auto_detect() && self.spec_opened().len() > 0),
    {
        self.auto_detect && self.opened.len() > 0
    }

    /// The devices opened and configured so far, in order.
    pub fn opened(&self) -> (opened: &Vec<String>)
        ensures
            names_view(opened@) == self.spec_opened(),
    {
        &self.opened
    }

    /// The step after a device could not be opened with `err`.
    pub fn on_open_failed(&self, err: Error) -> (step: OpenStep)
        ensures
            self.spec_auto_detect() && err is InvalidArgument ==> step is Next,
            !(self.spec_auto_detect() && err is InvalidArgument) ==> step == OpenStep::Fail(err),
    {
        if self.auto_detect {
            if let Error::InvalidArgument(_) = err {
                return OpenStep::Next;
            }
        }
        OpenStep::Fail(err)
    }

    /// The step after a device could be opened but not configured: opening fails.
    pub fn on_configure_failed(&self, err: Error) -> (step: OpenStep)
        ensures
            step == OpenStep::Fail(err),
    {
        OpenStep::Fail(err)
    }

    /// Records a device that was opened and configured.
    pub fn on_configured(&mut self, device: String) -> (step: OpenStep)
        requires
            !(old(self).spec_auto_detect() && old(self).spec_opened().len() > 0),
        ensures
            final(self).spec_auto_detect() == old(self).spec_auto_detect(),
            final(self).spec_opened() == old(self).spec_opened().push(device@),
            old(self).spec_auto_detect() ==> step is Done,
            !old(self).spec_auto_detect() ==> step is Next,
    {
        proof {
            use_type_invariant(&*self);
        }
        let ghost before = self.opened@;
        let mut opened: Vec<String> = Vec::new();
        std::mem::swap(&mut opened, &mut self.opened);
        opened.push(device);
        self.opened = opened;
        assert(names_view(self.opened@) =~= names_view(before).push(self.opened@.last()@));
        if self.auto_detect {
            OpenStep::Done
        } else {
            OpenStep::Next
        }
    }

    /// The devices of the camera once every device has been tried or the selection is
    /// done; an error where none opened.
    pub fn finish(self) -> (res: Result<Vec<String>>)
        ensures
            self.spec_opened().len() == 0 && self.spec_auto_detect() ==> (res matches Err(e)
                && is_runtime(
                e,
                "All v4l2 loopback devices at /dev/video[0-99] are busy. Is another process using them?"@,
            )),
            self.spec_opened().len() == 0 && !self.spec_auto_detect() ==> (res matches Err(e)
                && is_runtime(e, "Failed to open any of the requested devices."@)),
            self.spec_opened().len() > 0 ==> (res matches Ok(v) && names_view(v@)
                == self.spec_opened()),
            self.spec_auto_detect() && self.spec_opened().len() > 0 ==> (res matches Ok(v)
                && v@.len() == 1),
    {
        proof {
            use_type_invariant(&self);
        }
        if self.opened.len() == 0 {
            if self.auto_detect {
                return Err(
                    Error::runtime(
                        "All v4l2 loopback devices at /dev/video[0-99] are busy. Is another process using them?",
                    ),
                );
            }
            return Err(Error::runtime("Failed to open any of the requested devices."));
        }
        Ok(self.opened)
    }
}

} // verus!
