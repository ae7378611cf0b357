//! Kernel status codes and the errors that carry them.

use vstd::prelude::*;

verus! {

/// The operation completed immediately.
pub const NO_ERROR: u32 = 0;

/// A handle does not name a kernel object.
pub const ERROR_INVALID_HANDLE: u32 = 6;

/// An argument of a call is not acceptable.
pub const ERROR_INVALID_PARAMETER: u32 = 87;

/// The supplied buffer cannot hold the request.
pub const ERROR_INSUFFICIENT_BUFFER: u32 = 122;

/// An overlapped operation has not finished yet.
pub const ERROR_IO_INCOMPLETE: u32 = 996;

/// The operation was accepted and completes later through the callback.
pub const ERROR_IO_PENDING: u32 = 997;

/// Completion status that reports a partially filled buffer; the byte count is valid.
pub const STATUS_BUFFER_OVERFLOW: u32 = 0x8000_0005;

/// The `HRESULT` that stands for a native status code: zero stays zero, any
/// other code keeps its low 16 bits under the Win32 facility and the failure bit.
pub open spec fn hresult_of(code: u32) -> int {
    if code == 0 {
        0
    } else {
        (code & 0xFFFF) as int - 0x7FF9_0000
    }
}

/// The `HRESULT` of a native status code: 0 for code 0, otherwise the low 16
/// bits of the code under the Win32 facility and the failure bit,
/// `(code & 0xFFFF) | 0x8007_0000`, read as a signed number.
pub(crate) fn win32_to_hresult(code: u32) -> (hr: i32)
    ensures
        hr == hresult_of(code),
{
    if code == 0 {
        0
    } else {
        let low: u32 = code & 0xFFFF;
        let bits: u32 = low | 0x8007_0000;
        assert(low <= 0xFFFF) by (bit_vector)
            requires
                low == code & 0xFFFF,
        ;
        assert(bits == low + 0x8007_0000) by (bit_vector)
            requires
                low <= 0xFFFF,
                bits == low | 0x8007_0000,
        ;
        let hr = bits as i32;
        assert(hr == bits - 0x1_0000_0000) by (bit_vector)
            requires
                hr == bits as i32,
                bits >= 0x8000_0000u32,
        ;
        hr
    }
}

/// Every non-zero status code maps to a failure `HRESULT`.
pub proof fn lemma_hresult_negative(code: u32)
    ensures
        hresult_of(code) < 0 <==> code != 0,
        i32::MIN <= hresult_of(code) <= 0,
{
    assert(code & 0xFFFF <= 0xFFFF) by (bit_vector);
}

/// A terminal I/O error. It always carries the kernel's native status code.
#[derive(Clone, Copy, Debug, PartialEq, Eq, Structural)]
pub struct IoError {
    pub code: u32,
}

impl IoError {
    /// The native status code that the kernel reported.
    pub fn native_code(&self) -> (code: u32)
        ensures
            code == self.code,
    {
        self.code
    }

    /// The error as an `HRESULT`.
    pub fn hresult(&self) -> (hr: i32)
        ensures
            hr == hresult_of(self.code),
            hr < 0 <==> self.code != 0,
    {
        proof {
            lemma_hresult_negative(self.code);
        }
        win32_to_hresult(self.code)
    }

    /// Whether the error says that the request did not fit the receive buffer.
    pub fn is_request_too_large(&self) -> (large: bool)
        ensures
            large == (self.code == ERROR_INSUFFICIENT_BUFFER),
    {
        self.code == ERROR_INSUFFICIENT_BUFFER
    }
}

} // verus!
