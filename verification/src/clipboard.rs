//! Clipboard image payloads.
//!
//! The clipboard itself is read and written by the application shell; the
//! library holds the payload type and the one rule about it: an RGBA image
//! of the claimed dimensions carries exactly `width * height * 4` bytes.

use vstd::prelude::*;

verus! {

/// An image as it crosses the clipboard boundary: raw RGBA bytes plus the
/// claimed dimensions.
pub struct ImageData {
    pub rgba: Vec<u8>,
    pub width: u32,
    pub height: u32,
}

/// The byte length an RGBA image of these dimensions must have.
pub open spec fn spec_rgba_len(width: int, height: int) -> int {
    width * height * 4
}

impl ImageData {
    /// Whether the byte payload matches the claimed dimensions.
    pub fn is_valid(&self) -> (r: bool)
        ensures
            r == (self.rgba@.len() == spec_rgba_len(self.width as int, self.height as int)),
    {
        proof {
            assert((self.width as int) * (self.height as int) * 4 < u128::MAX)
                by (nonlinear_arith)
                requires
                    self.width <= u32::MAX,
                    self.height <= u32::MAX,
            ;
        }
        let expected: u128 = (self.width as u128) * (self.height as u128) * 4;
        (self.rgba.len() as u128) == expected
    }
}

} // verus!
