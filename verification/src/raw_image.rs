use vstd::prelude::*;

verus! {

/// An immutable source raster: `width * height` pixels of tightly packed RGB
/// bytes, row-major, no padding. Shared read-only by every render pass.
pub struct RawImage {
    pub width: u32,
    pub height: u32,
    pub rgb_pixels: Vec<u8>,
}

impl RawImage {
    /// The byte buffer holds exactly three bytes for every pixel.
    pub open spec fn wf(self) -> bool {
        self.rgb_pixels.len() == 3 * (self.width as int) * (self.height as int)
    }

    /// The RGBA quad seen at pixel `(x, y)`: the stored RGB triple with full
    /// opacity inside the raster, the magenta sentinel outside it.
    pub open spec fn spec_rgba_at(self, x: usize, y: usize) -> Seq<u8> {
        if x < self.width && y < self.height {
            let base = 3 * (x as int + self.width as int * y as int);
            seq![
                self.rgb_pixels[base],
                self.rgb_pixels[base + 1],
                self.rgb_pixels[base + 2],
                0xffu8,
            ]
        } else {
            seq![0xffu8, 0u8, 0xffu8, 0xffu8]
        }
    }

    /// A raster may only be built around a byte buffer of the right length;
    /// a mismatched buffer is rejected before construction by the caller.
    pub fn new(width: u32, height: u32, pixels: Vec<u8>) -> (r: Self)
        requires
            pixels.len() == 3 * (width as int) * (height as int),
        ensures
            r.wf(),
            r.width == width,
            r.height == height,
            r.rgb_pixels == pixels,
    {
        Self { width, height, rgb_pixels: pixels }
    }

    /// Nearest pixel lookup with a defined out-of-bounds sentinel.
    pub fn rgba_at(&self, x: usize, y: usize) -> (r: [u8; 4])
        requires
            self.wf(),
        ensures
            r@ == self.spec_rgba_at(x, y),
    {
        let width = self.width as usize;
        let height = self.height as usize;
        if x < width && y < height {
            let len = self.rgb_pixels.len();
            proof {
                let wi: int = self.width as int;
                let hi: int = self.height as int;
                assert(3 * (x + wi * y) + 2 < 3 * wi * hi) by (nonlinear_arith)
                    requires
                        x < wi,
                        y < hi,
                ;
            }
            assert(3 * (x + width * y) + 2 < len);
            let base = 3 * (x + width * y);
            [
                self.rgb_pixels[base],
                self.rgb_pixels[base + 1],
                self.rgb_pixels[base + 2],
                0xff,
            ]
        } else {
            [0xff, 0, 0xff, 0xff]
        }
    }
}

} // verus!
