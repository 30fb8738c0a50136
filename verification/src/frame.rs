//! The frame data model: one captured image buffer with its byte length and
//! encoding tag, plus the error taxonomy of the capture and write paths.

use vstd::prelude::*;

verus! {

/// The encoding a captured frame carries. The hardware pipeline of this node
/// produces JPEG only.
#[derive(Clone, Copy, PartialEq, Eq, Structural, Debug)]
pub enum Encoding {
    Jpeg,
}

/// Why a capture from the hardware buffer pool failed.
#[derive(Clone, Copy, PartialEq, Eq, Structural, Debug)]
pub enum CaptureError {
    /// The pool has no completed buffer and cannot produce one now.
    HardwareBusy,
    /// The image pipeline reported an unrecoverable fault.
    HardwareFault,
}

/// Why a chunk write to the client transport failed.
#[derive(Clone, Copy, PartialEq, Eq, Structural, Debug)]
pub enum IoError {
    /// The transport accepted the connection but the write did not complete.
    WriteFailed,
    /// The peer closed the connection.
    ConnectionClosed,
}

/// One captured image: an owned byte buffer tagged with its encoding.
///
/// The hardware hands out its buffers exclusively; a value of this type
/// models such a buffer by its contents. Ownership discipline (capture
/// exactly once, release exactly once) is tracked by the stream session.
pub struct Frame {
    pub data: Vec<u8>,
    pub encoding: Encoding,
}

impl Frame {
    /// The byte contents of the frame.
    pub open spec fn view(&self) -> Seq<u8> {
        self.data@
    }

    /// Wrap captured bytes as a JPEG frame.
    pub fn new(data: Vec<u8>) -> (f: Frame)
        ensures
            f@ == data@,
            f.encoding == Encoding::Jpeg,
    {
        Frame { data, encoding: Encoding::Jpeg }
    }

    /// Exact byte length of the frame payload.
    pub fn len(&self) -> (n: usize)
        ensures
            n == self@.len(),
    {
        self.data.len()
    }
}

} // verus!
