use vstd::prelude::*;
use crate::error::BufferError;

verus! {

/// One RGBA pixel, 8 bits per channel.
#[derive(Clone, Copy, Debug, PartialEq, Eq, Structural)]
pub struct Rgba {
    pub r: u8,
    pub g: u8,
    pub b: u8,
    pub a: u8,
}

/// Channel `k` (red, green, blue, alpha for 0 to 3) of a pixel.
pub open spec fn channel(p: Rgba, k: int) -> u8 {
    if k == 0 {
        p.r
    } else if k == 1 {
        p.g
    } else if k == 2 {
        p.b
    } else {
        p.a
    }
}

/// Byte `k` of pixel `i` in a row-major byte layout of four bytes per pixel.
pub open spec fn pixel_byte(bytes: Seq<u8>, i: int, k: int) -> u8 {
    bytes[4 * i + k]
}

/// Position `(x, y)` of the pixel at row-major index `i` in rows of `width` pixels.
pub open spec fn position_of(width: nat, i: nat) -> (nat, nat) {
    (i % width, i / width)
}

/// Splits a row-major pixel index into its column and row.
pub fn pixel_position(width: u32, i: u32) -> (r: (u32, u32))
    requires
        width > 0,
    ensures
        r.0 as nat == position_of(width as nat, i as nat).0,
        r.1 as nat == position_of(width as nat, i as nat).1,
{
    (i % width, i / width)
}

/// Side of the river field's buffer: the requested resolution plus one texel of
/// padding on each side. `None` where that leaves `u32`.
pub fn padded_side(resolution: u32) -> (r: Option<u32>)
    ensures
        resolution as int + 2 <= u32::MAX ==> r == Some((resolution + 2) as u32),
        resolution as int + 2 > u32::MAX ==> r is None,
{
    resolution.checked_add(2)
}

/// A row-major buffer of `width * height` RGBA pixels, four bytes each.
pub struct PixelBuffer {
    width: u32,
    height: u32,
    bytes: Vec<u8>,
}

impl PixelBuffer {
    pub closed spec fn spec_width(&self) -> nat {
        self.width as nat
    }

    pub closed spec fn spec_height(&self) -> nat {
        self.height as nat
    }

    pub closed spec fn spec_bytes(&self) -> Seq<u8> {
        self.bytes@
    }

    /// Byte `k` of pixel `i` in row-major order.
    pub open spec fn byte_of(&self, i: int, k: int) -> u8 {
        pixel_byte(self.spec_bytes(), i, k)
    }

    pub closed spec fn wf(&self) -> bool {
        self.bytes@.len() == 4 * (self.width as nat) * (self.height as nat)
    }

    /// Lays out `pixels`, given in row-major order, as bytes.
    pub fn from_pixels(width: u32, height: u32, pixels: &Vec<Rgba>) -> (r: Result<
        PixelBuffer,
        BufferError,
    >)
        ensures
            (width as int) * (height as int) != pixels@.len() ==> r == Err::<
                PixelBuffer,
                BufferError,
            >(BufferError::SizeMismatch),
            (width as int) * (height as int) == pixels@.len() && 4 * pixels@.len() > usize::MAX
                ==> r == Err::<PixelBuffer, BufferError>(BufferError::TooLarge),
            (width as int) * (height as int) == pixels@.len() && 4 * pixels@.len() <= usize::MAX
                ==> r is Ok,
            r matches Ok(b) ==> {
                &&& b.wf()
                &&& b.spec_width() == width
                &&& b.spec_height() == height
                &&& b.spec_bytes().len() == 4 * pixels@.len()
                &&& forall|i: int, k: int|
                    0 <= i < pixels@.len() && 0 <= k < 4 ==> #[trigger] b.byte_of(i, k)
                        == channel(pixels@[i], k)
            },
    {
        let n: usize = pixels.len();
        proof {
            assert((width as int) * (height as int) <= u64::MAX) by (nonlinear_arith)
                requires
                    width <= u32::MAX,
                    height <= u32::MAX,
            ;
        }
        if (width as u64) * (height as u64) != n as u64 {
            return Err(BufferError::SizeMismatch);
        }
        if n > usize::MAX / 4 {
            return Err(BufferError::TooLarge);
        }
        let mut bytes: Vec<u8> = Vec::with_capacity(4 * n);
        let mut i: usize = 0;
        while i < n
            invariant
                n == pixels@.len(),
                4 * n <= usize::MAX,
                i <= n,
                bytes@.len() == 4 * i,
                forall|j: int, k: int|
                    0 <= j < i && 0 <= k < 4 ==> #[trigger] pixel_byte(bytes@, j, k)
                        == channel(pixels@[j], k),
            decreases n - i,
        {
            let p = pixels[i];
            let ghost before = bytes@;
            bytes.push(p.r);
            bytes.push(p.g);
            bytes.push(p.b);
            bytes.push(p.a);
            proof {
                assert forall|j: int, k: int| 0 <= j < i + 1 && 0 <= k < 4 implies #[trigger]
                    pixel_byte(bytes@, j, k) == channel(pixels@[j], k) by {
                    if j < i {
                        assert(pixel_byte(before, j, k) == channel(pixels@[j], k));
                    }
                }
            }
            i = i + 1;
        }
        proof {
            assert(4 * (width as nat) * (height as nat) == 4 * ((width as int) * (height as int)))
                by (nonlinear_arith);
        }
        let b = PixelBuffer { width, height, bytes };
        Ok(b)
    }

    pub fn width(&self) -> (r: u32)
        ensures
            r == self.spec_width(),
    {
        self.width
    }

    pub fn height(&self) -> (r: u32)
        ensures
            r == self.spec_height(),
    {
        self.height
    }

    /// The pixel at column `x`, row `y`.
    pub fn pixel(&self, x: u32, y: u32) -> (r: Rgba)
        requires
            self.wf(),
            x < self.spec_width(),
            y < self.spec_height(),
        ensures
            forall|k: int|
                0 <= k < 4 ==> channel(r, k) == self.byte_of(
                    (y as int) * (self.spec_width() as int) + x,
                    k,
                ),
    {
        let w = self.width as usize;
        let len: usize = self.bytes.len();
        proof {
            assert((y as int) * (w as int) + x < (self.height as int) * (w as int)) by (
            nonlinear_arith)
                requires
                    x < w,
                    y < self.height,
            ;
            assert(4 * (self.width as nat) * (self.height as nat) == 4 * ((self.height as int) * (
            w as int))) by (nonlinear_arith)
                requires
                    w == self.width,
            ;
            assert((y as int) * (w as int) <= (y as int) * (w as int) + x);
        }
        let i: usize = (y as usize) * w + (x as usize);
        Rgba { r: self.bytes[4 * i], g: self.bytes[4 * i + 1], b: self.bytes[4 * i + 2], a: self.bytes[4 * i + 3] }
    }

    /// The bytes, four per pixel in row-major order.
    pub fn into_bytes(self) -> (r: Vec<u8>)
        ensures
            r@ == self.spec_bytes(),
    {
        self.bytes
    }
}

} // verus!
