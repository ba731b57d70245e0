//! The picture: 256 by 240 pixels of three bytes each, red, green and blue,
//! row by row.

use vstd::prelude::*;

verus! {

/// Pixels in a row.
pub const WIDTH: usize = 256;

/// Rows in a picture.
pub const HEIGHT: usize = 240;

/// Bytes in a picture.
pub const FRAME_BYTES: usize = 184320;

/// One picture.
pub struct Frame {
    pub data: Vec<u8>,
}

/// Where the red byte of the pixel in column `x` of row `y` lies.
pub open spec fn pixel_offset(x: int, y: int) -> int {
    (y * 256 + x) * 3
}

/// `data` with the pixel in column `x` of row `y` set to `rgb`; `data` itself
/// where the pixel lies outside the picture.
pub open spec fn with_pixel(data: Seq<u8>, x: int, y: int, rgb: (u8, u8, u8)) -> Seq<u8> {
    if 0 <= x < 256 && 0 <= y < 240 {
        data.update(pixel_offset(x, y), rgb.0).update(pixel_offset(x, y) + 1, rgb.1).update(
            pixel_offset(x, y) + 2,
            rgb.2,
        )
    } else {
        data
    }
}

impl Frame {
    /// The picture has all its bytes.
    pub open spec fn wf(&self) -> bool {
        self.data@.len() == 184320
    }

    /// A black picture.
    pub fn new() -> (r: Self)
        ensures
            r.wf(),
            r.data@ == Seq::new(184320, |i: int| 0u8),
    {
        let mut data: Vec<u8> = Vec::new();
        let mut i: usize = 0;
        while i < FRAME_BYTES
            invariant
                i <= FRAME_BYTES,
                data@ == Seq::new(i as nat, |k: int| 0u8),
            decreases FRAME_BYTES - i,
        {
            data.push(0);
            i += 1;
            assert(data@ =~= Seq::new(i as nat, |k: int| 0u8));
        }
        Frame { data }
    }

    /// Sets the pixel in column `x` of row `y`; a pixel outside the picture
    /// is left out.
    pub fn set_pixel(&mut self, x: usize, y: usize, rgb: (u8, u8, u8))
        requires
            old(self).wf(),
        ensures
            final(self).wf(),
            final(self).data@ == with_pixel(old(self).data@, x as int, y as int, rgb),
    {
        if x < WIDTH && y < HEIGHT {
            let base: usize = (y * WIDTH + x) * 3;
            self.data.set(base, rgb.0);
            self.data.set(base + 1, rgb.1);
            self.data.set(base + 2, rgb.2);
        }
    }

    /// The colour of the pixel in column `x` of row `y`.
    pub fn pixel(&self, x: usize, y: usize) -> (rgb: (u8, u8, u8))
        requires
            self.wf(),
            x < 256,
            y < 240,
        ensures
            rgb == (
                self.data@[pixel_offset(x as int, y as int)],
                self.data@[pixel_offset(x as int, y as int) + 1],
                self.data@[pixel_offset(x as int, y as int) + 2],
            ),
    {
        let base: usize = (y * WIDTH + x) * 3;
        (self.data[base], self.data[base + 1], self.data[base + 2])
    }

    /// A pixel that has been set reads back, and setting it leaves every
    /// other pixel as it was.
    pub proof fn set_pixel_reads_back(
        data: Seq<u8>,
        x: int,
        y: int,
        rgb: (u8, u8, u8),
        other_x: int,
        other_y: int,
    )
        requires
            data.len() == 184320,
            0 <= x < 256,
            0 <= y < 240,
            0 <= other_x < 256,
            0 <= other_y < 240,
        ensures
            with_pixel(data, x, y, rgb).len() == 184320,
            with_pixel(data, x, y, rgb)[pixel_offset(x, y)] == rgb.0,
            with_pixel(data, x, y, rgb)[pixel_offset(x, y) + 1] == rgb.1,
            with_pixel(data, x, y, rgb)[pixel_offset(x, y) + 2] == rgb.2,
            (other_x != x || other_y != y) ==> {
                &&& with_pixel(data, x, y, rgb)[pixel_offset(other_x, other_y)] == data[pixel_offset(
                    other_x,
                    other_y,
                )]
                &&& with_pixel(data, x, y, rgb)[pixel_offset(other_x, other_y) + 1] == data[
                    pixel_offset(other_x, other_y) + 1]
                &&& with_pixel(data, x, y, rgb)[pixel_offset(other_x, other_y) + 2] == data[
                    pixel_offset(other_x, other_y) + 2]
            },
    {
    }
}

} // verus!
