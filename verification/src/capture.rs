//! The last captured game frame.
//!
//! Each captured frame overwrites the one before. Frames in shared memory are
//! kept as a handle, frames in plain memory as a bounded copy.

use vstd::prelude::*;

verus! {

/// How a captured frame is stored.
#[derive(Clone, Copy, Debug, PartialEq, Eq, Structural)]
pub enum CapturedFormat {
    SharedRgb,
    SharedBgr,
    SharedNv12,
    SharedP010,
    /// Plain memory: luma rows, then half as many chroma rows.
    Nv12,
    /// Plain memory.
    Rgb,
}

impl CapturedFormat {
    /// The formats that hand over a shared handle.
    pub open spec fn shared(self) -> bool {
        self is SharedRgb || self is SharedBgr || self is SharedNv12 || self is SharedP010
    }

    /// Whether the frame is handed over as a shared handle.
    pub fn is_shared(self) -> (shared: bool)
        ensures
            shared == self.shared(),
    {
        match self {
            CapturedFormat::SharedRgb
            | CapturedFormat::SharedBgr
            | CapturedFormat::SharedNv12
            | CapturedFormat::SharedP010 => true,
            CapturedFormat::Nv12 | CapturedFormat::Rgb => false,
        }
    }
}

/// One captured frame.
#[derive(Clone, Debug, PartialEq, Eq)]
pub enum LastCapturedFrame {
    /// A frame in shared memory.
    Shared { format: CapturedFormat, handle: usize, width: i32, height: i32, stride: u32 },
    /// A copy of a frame in plain memory; empty where there was nothing to copy
    /// or too much.
    Cpu { format: CapturedFormat, width: i32, height: i32, stride: u32, bytes: Vec<u8> },
}

/// Largest copy of a frame.
pub const MAX_CPU_BYTES: usize = 64 * 1024 * 1024;

/// The format with a given code.
pub open spec fn format_of(code: i32) -> CapturedFormat {
    if code == 0x1000 {
        CapturedFormat::SharedRgb
    } else if code == 0x2000 {
        CapturedFormat::SharedBgr
    } else if code == 0x4000 {
        CapturedFormat::SharedNv12
    } else if code == 0x8000 {
        CapturedFormat::SharedP010
    } else if code == 512 {
        CapturedFormat::Nv12
    } else {
        CapturedFormat::Rgb
    }
}

/// Classifies the format code of a captured frame.
pub fn classify_captured_format(a2: i32) -> (format: CapturedFormat)
    ensures
        format == format_of(a2),
{
    match a2 {
        0x1000 => CapturedFormat::SharedRgb,
        0x2000 => CapturedFormat::SharedBgr,
        0x4000 => CapturedFormat::SharedNv12,
        0x8000 => CapturedFormat::SharedP010,
        512 => CapturedFormat::Nv12,
        _ => CapturedFormat::Rgb,
    }
}

/// Bytes that a frame in plain memory takes.
pub open spec fn frame_bytes(format: CapturedFormat, stride: u32, rows: i32) -> int {
    let luma = rows * stride;
    if format is Nv12 {
        luma + luma / 2
    } else {
        luma
    }
}

/// Bytes that a frame in plain memory takes, if it is one and the number of
/// rows and bytes makes sense.
pub fn cpu_byte_len(format: CapturedFormat, stride: u32, rows: i32) -> (len: Option<usize>)
    ensures
        len == (if rows >= 0 && !format.shared() && frame_bytes(format, stride, rows)
            <= usize::MAX {
            Some(frame_bytes(format, stride, rows) as usize)
        } else {
            None
        }),
{
    if rows < 0 {
        return None;
    }
    assert(rows * stride >= 0) by (nonlinear_arith)
        requires
            rows >= 0,
    ;
    let luma: usize = match (rows as usize).checked_mul(stride as usize) {
        Some(luma) => luma,
        None => {
            return None;
        },
    };
    match format {
        CapturedFormat::Nv12 => luma.checked_add(luma / 2),
        CapturedFormat::Rgb => Some(luma),
        _ => None,
    }
}

/// Bytes to copy of a frame in plain memory at `src`; none of it where that is
/// null, empty, malformed or too large.
pub open spec fn copied_bytes(format: CapturedFormat, src: i64, stride: u32, rows: i32) -> int {
    let len = frame_bytes(format, stride, rows);
    if rows >= 0 && !format.shared() && 0 < len <= MAX_CPU_BYTES && src != 0 {
        len
    } else {
        0
    }
}

/// Stores a captured frame over the last one and answers 1. `copy` reads that
/// many bytes of a frame in plain memory; it is not asked for an empty copy.
pub fn ingest_captured_frame(
    last: &mut Option<LastCapturedFrame>,
    a2: i32,
    a6: i64,
    a7: u32,
    a8: i32,
    a9: i32,
    copy: impl FnOnce(usize) -> Vec<u8>,
) -> (answer: i64)
    requires
        copied_bytes(format_of(a2), a6, a7, a9) != 0 ==> call_requires(
            copy,
            (copied_bytes(format_of(a2), a6, a7, a9) as usize,),
        ),
    ensures
        answer == 1,
        format_of(a2).shared() ==> *final(last) == Some(
            LastCapturedFrame::Shared {
                format: format_of(a2),
                handle: a6 as usize,
                width: a8,
                height: a9,
                stride: a7,
            },
        ),
        !format_of(a2).shared() ==> {
            &&& *final(last) matches Some(
                LastCapturedFrame::Cpu { format, width, height, stride, bytes },
            )
            &&& format == format_of(a2)
            &&& width == a8
            &&& height == a9
            &&& stride == a7
            &&& if copied_bytes(format_of(a2), a6, a7, a9) == 0 {
                bytes@.len() == 0
            } else {
                call_ensures(
                    copy,
                    (copied_bytes(format_of(a2), a6, a7, a9) as usize,),
                    bytes,
                )
            }
        },
{
    let format = classify_captured_format(a2);
    let frame = if format.is_shared() {
        LastCapturedFrame::Shared {
            format,
            handle: a6 as usize,
            width: a8,
            height: a9,
            stride: a7,
        }
    } else {
        let len: usize = match cpu_byte_len(format, a7, a9) {
            Some(len) => len,
            None => 0,
        };
        let bytes: Vec<u8> = if len == 0 || len > MAX_CPU_BYTES || a6 == 0 {
            Vec::new()
        } else {
            copy(len)
        };
        LastCapturedFrame::Cpu { format, width: a8, height: a9, stride: a7, bytes }
    };
    *last = Some(frame);
    1
}

/// The codes 0x1000, 0x2000, 0x4000 and 0x8000 stand for the shared formats, 512 for
/// luma and chroma in plain memory, and everything else for colors there.
pub proof fn law_codes_tell_the_format(code: i32, format: CapturedFormat, shared: bool)
    requires
        call_ensures(classify_captured_format, (code,), format),
        call_ensures(CapturedFormat::is_shared, (format,), shared),
    ensures
        format is SharedRgb <==> code == 0x1000,
        format is SharedBgr <==> code == 0x2000,
        format is SharedNv12 <==> code == 0x4000,
        format is SharedP010 <==> code == 0x8000,
        format is Nv12 <==> code == 0x200,
        shared <==> code == 0x1000 || code == 0x2000 || code == 0x4000 || code == 0x8000,
{
}

/// A frame of colors takes its rows times its stride, one of luma and chroma half as
/// much again; a shared frame takes nothing here, and neither does one with a negative
/// number of rows or more bytes than there are.
pub proof fn law_frames_take_their_rows(
    format: CapturedFormat,
    stride: u32,
    rows: i32,
    len: Option<usize>,
)
    requires
        call_ensures(cpu_byte_len, (format, stride, rows), len),
    ensures
        rows < 0 ==> len is None,
        !(format is Nv12) && !(format is Rgb) ==> len is None,
        format is Rgb && rows >= 0 && rows * stride <= usize::MAX ==> len is Some && len->0 == rows
            * stride,
        format is Nv12 && rows >= 0 && len is Some ==> len->0 == rows * stride + (rows * stride)
            / 2,
        format is Nv12 && rows >= 0 && 2 * (rows * stride) <= usize::MAX ==> len is Some,
        len is Some ==> rows * stride <= usize::MAX,
{
    if rows >= 0 {
        assert(rows * stride >= 0) by (nonlinear_arith)
            requires
                rows >= 0,
        ;
    }
}

/// The last frame is the one that came last, with its own width, height and stride: a
/// shared one by its handle, one in plain memory by a copy of all its bytes, as long as
/// there are at most 64 MiB and there is something to copy. The answer is always 1.
pub proof fn law_last_frame_is_kept<C: FnOnce(usize) -> Vec<u8>>(
    last: &mut Option<LastCapturedFrame>,
    code: i32,
    source: i64,
    stride: u32,
    width: i32,
    height: i32,
    copy: C,
    answer: i64,
)
    requires
        call_ensures(ingest_captured_frame, (last, code, source, stride, width, height, copy), answer),
    ensures
        answer == 1,
        match *final(last) {
            None => false,
            Some(LastCapturedFrame::Shared { format, handle, width: w, height: h, stride: s }) => {
                &&& code == 0x1000 || code == 0x2000 || code == 0x4000 || code == 0x8000
                &&& format is SharedRgb <==> code == 0x1000
                &&& format is SharedBgr <==> code == 0x2000
                &&& format is SharedNv12 <==> code == 0x4000
                &&& format is SharedP010 <==> code == 0x8000
                &&& handle == source as usize
                &&& w == width && h == height && s == stride
            },
            Some(LastCapturedFrame::Cpu { format, width: w, height: h, stride: s, bytes }) => {
                let luma = height * stride;
                let whole = if code == 512 {
                    luma + luma / 2
                } else {
                    luma
                };
                &&& code != 0x1000 && code != 0x2000 && code != 0x4000 && code != 0x8000
                &&& format is Nv12 <==> code == 512
                &&& format is Rgb <==> code != 512
                &&& w == width && h == height && s == stride
                &&& source != 0 && height >= 0 && 0 < whole <= 67_108_864 ==> call_ensures(
                    copy,
                    (whole as usize,),
                    bytes,
                )
                &&& source == 0 || height < 0 || whole <= 0 || whole > 67_108_864 ==> bytes@.len()
                    == 0
            },
        },
{
    assert(MAX_CPU_BYTES == 67_108_864);
}

} // verus!
