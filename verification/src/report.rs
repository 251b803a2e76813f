//! Layout of the HID output report that sets the Plumbob's color.

use vstd::prelude::*;

verus! {

/// Length of the device's output report payload.
pub const REPORT_LEN: usize = 32;

/// Command code, first byte of the payload, that sets the color.
pub const CMD_SET_RGB: u8 = 0x07;

/// Length of the buffer handed to the HID layer: a report-id byte, then the payload.
pub const REPORT_BUF_LEN: usize = 33;

/// The buffer that sets the color `(r, g, b)`: byte 0 is the report id (the
/// device declares none, so 0x00); the payload follows, whose byte 0 is the
/// command code and whose bytes 2, 3, 4 are red, green and blue; all else is zero.
pub open spec fn spec_rgb_report(r: u8, g: u8, b: u8) -> Seq<u8> {
    Seq::new(
        REPORT_BUF_LEN as nat,
        |i: int|
            if i == 1 {
                CMD_SET_RGB
            } else if i == 3 {
                r
            } else if i == 4 {
                g
            } else if i == 5 {
                b
            } else {
                0u8
            },
    )
}

/// Build the buffer that sets the color `(r, g, b)`.
pub fn rgb_report(r: u8, g: u8, b: u8) -> (buf: Vec<u8>)
    ensures
        buf@ == spec_rgb_report(r, g, b),
        buf@.len() == 1 + REPORT_LEN,
{
    let mut buf: Vec<u8> = Vec::new();
    let mut i: usize = 0;
    while i < REPORT_BUF_LEN
        invariant
            i <= REPORT_BUF_LEN,
            buf@ == spec_rgb_report(r, g, b).take(i as int),
        decreases REPORT_BUF_LEN - i,
    {
        let byte = if i == 1 {
            CMD_SET_RGB
        } else if i == 3 {
            r
        } else if i == 4 {
            g
        } else if i == 5 {
            b
        } else {
            0u8
        };
        buf.push(byte);
        i = i + 1;
        assert(buf@ =~= spec_rgb_report(r, g, b).take(i as int));
    }
    assert(spec_rgb_report(r, g, b).take(REPORT_BUF_LEN as int) =~= spec_rgb_report(r, g, b));
    buf
}

/// The set-color buffer is 33 bytes: report id 0, command 0x07, a zero byte,
/// then red, green and blue unchanged, then zeros; two colors' buffers differ
/// in the three color bytes only.
pub proof fn lemma_rgb_report_layout(r: u8, g: u8, b: u8, r2: u8, g2: u8, b2: u8)
    ensures
        spec_rgb_report(r, g, b).len() == 33,
        spec_rgb_report(r, g, b)[0] == 0u8,
        spec_rgb_report(r, g, b)[1] == 0x07u8,
        spec_rgb_report(r, g, b)[2] == 0u8,
        spec_rgb_report(r, g, b)[3] == r,
        spec_rgb_report(r, g, b)[4] == g,
        spec_rgb_report(r, g, b)[5] == b,
        forall|i: int| 6 <= i < 33 ==> #[trigger] spec_rgb_report(r, g, b)[i] == 0u8,
        forall|i: int|
            0 <= i < 33 && !(3 <= i < 6) ==> #[trigger] spec_rgb_report(r, g, b)[i]
                == spec_rgb_report(r2, g2, b2)[i],
{
}

/// A write that the device took only in part.
#[derive(Debug, PartialEq, Eq, Clone, Copy, Structural)]
pub struct ShortWrite {
    pub written: usize,
    pub expected: usize,
}

/// Accept a write of `written` bytes out of `expected` only when it is whole.
pub fn check_write(written: usize, expected: usize) -> (r: Result<(), ShortWrite>)
    ensures
        r is Ok <==> written == expected,
        r matches Err(e) ==> e.written == written && e.expected == expected,
{
    if written != expected {
        Err(ShortWrite { written, expected })
    } else {
        Ok(())
    }
}

} // verus!
