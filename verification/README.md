# pyvirtualcam_core

The core of pyvirtualcam as a verified Verus library, with the system side around it.

- `src/` is the library, verified by Verus:
  - `fourcc`: FourCC packing and the named codes.
  - `formats`: `PixelFormat`, its FourCC in both directions, and frame sizes.
  - `convert`: the checks around an RGB/BGR to I420 conversion: the input and output
    buffer sizes, and how far the conversion's chroma writes reach at odd sizes.
  - `error`: the error type.
  - `registry`: the set of devices that cameras of the process hold.
  - `v4l2`: ioctl request numbers, device validation, device errors and the choice of
    devices a camera opens.
  - `loopback`: the output format and size for each input format, and what a camera
    does with each frame.
- `app/` makes the system calls (`open`, `ioctl`, `write`, `close`) with `libc`, calls
  libyuv's pixel conversion and FourCC alias table through the C wrapper functions
  `pyvc_rgb_to_i420`, `pyvc_bgr_to_i420` and `pyvc_canonical_fourcc` (the C++ wrapper and
  libyuv are compiled and linked outside this crate), holds the process-wide device
  registry, the `CameraBuilder`/`Camera` API (its frame rate is a float) and the PyO3
  extension module.
- `tests/` runs the library on concrete values.
