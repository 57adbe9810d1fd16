use vstd::prelude::*;
use vstd::arithmetic::div_mod::{lemma_fundamental_div_mod, lemma_fundamental_div_mod_converse};
use crate::color::ColorType;
use crate::coords::Origin;

verus! {

/// The position that byte `k` of a buffer of `row_count` rows of `stride`
/// bytes takes when the rows are put in reverse order: same column, opposite row.
pub open spec fn spec_mirror_index(k: int, row_count: nat, stride: nat) -> int {
    (row_count - 1 - k / (stride as int)) * stride + k % (stride as int)
}

/// A buffer of `row_count` rows of `stride` bytes each, with its rows in
/// reverse order.
pub open spec fn spec_flip_rows(s: Seq<u8>, row_count: nat, stride: nat) -> Seq<u8> {
    Seq::new(s.len(), |k: int| s[spec_mirror_index(k, row_count, stride)])
}

/// A buffer as the orientation transform leaves it: rows reversed for a
/// bottom left origin, unchanged for a top left one.
pub open spec fn spec_orient(s: Seq<u8>, origin: Origin, row_count: nat, stride: nat) -> Seq<u8> {
    match origin {
        Origin::BottomLeft => spec_flip_rows(s, row_count, stride),
        Origin::TopLeft => s,
    }
}

proof fn lemma_row_col(r: int, c: int, stride: int)
    requires
        0 <= c < stride,
    ensures
        (r * stride + c) / stride == r,
        (r * stride + c) % stride == c,
{
    lemma_fundamental_div_mod_converse(r * stride + c, stride, r, c);
}

proof fn lemma_mirror_index(k: int, row_count: nat, stride: nat)
    requires
        0 <= k < row_count * stride,
    ensures
        0 <= spec_mirror_index(k, row_count, stride) < row_count * stride,
        spec_mirror_index(spec_mirror_index(k, row_count, stride), row_count, stride) == k,
{
    let s = stride as int;
    let n = row_count as int;
    assert(s > 0) by (nonlinear_arith)
        requires
            0 <= k < n * s,
            n >= 0,
            s >= 0,
    ;
    let r = k / s;
    let c = k % s;
    lemma_fundamental_div_mod(k, s);
    assert(0 <= c < s);
    assert(0 <= r < n) by (nonlinear_arith)
        requires
            k == s * r + c,
            0 <= c < s,
            0 <= k < n * s,
    ;
    let m = (n - 1 - r) * s + c;
    assert(0 <= m < n * s) by (nonlinear_arith)
        requires
            m == (n - 1 - r) * s + c,
            0 <= r < n,
            0 <= c < s,
    ;
    lemma_row_col(n - 1 - r, c, s);
    assert(spec_mirror_index(m, row_count, stride) == (n - 1 - (n - 1 - r)) * s + c);
    assert(k == r * s + c) by (nonlinear_arith)
        requires
            k == s * r + c,
    ;
}

/// Reversing the rows of a buffer twice gives back the buffer, byte for byte.
pub proof fn lemma_flip_rows_involution(s: Seq<u8>, row_count: nat, stride: nat)
    requires
        s.len() == row_count * stride,
    ensures
        spec_flip_rows(spec_flip_rows(s, row_count, stride), row_count, stride) == s,
{
    let once = spec_flip_rows(s, row_count, stride);
    let twice = spec_flip_rows(once, row_count, stride);
    assert forall|k: int| 0 <= k < s.len() implies twice[k] == s[k] by {
        lemma_mirror_index(k, row_count, stride);
    }
    assert(twice =~= s);
}

/// Applying the orientation transform twice for the same origin gives back
/// the buffer, byte for byte.
pub proof fn lemma_orient_involution(s: Seq<u8>, origin: Origin, row_count: nat, stride: nat)
    requires
        s.len() == row_count * stride,
    ensures
        spec_orient(spec_orient(s, origin, row_count, stride), origin, row_count, stride) == s,
{
    lemma_flip_rows_involution(s, row_count, stride);
}

/// Copy a buffer of `row_count` rows of `stride` bytes each with its rows in
/// reverse order.
pub fn flip_rows(image: &Vec<u8>, row_count: usize, stride: usize) -> (r: Vec<u8>)
    requires
        image.len() == row_count * stride,
    ensures
        r@ == spec_flip_rows(image@, row_count as nat, stride as nat),
{
    let mut out: Vec<u8> = Vec::new();
    let mut row: usize = 0;
    while row < row_count
        invariant
            row <= row_count,
            image.len() == row_count * stride,
            out.len() == row * stride,
            forall|k: int|
                0 <= k < out.len() ==> out@[k] == image@[spec_mirror_index(
                    k,
                    row_count as nat,
                    stride as nat,
                )],
        decreases row_count - row,
    {
        let source_row = row_count - 1 - row;
        assert(source_row * stride + stride <= row_count * stride) by (nonlinear_arith)
            requires
                source_row < row_count,
        ;
        let start = source_row * stride;
        let mut col: usize = 0;
        while col < stride
            invariant
                row < row_count,
                col <= stride,
                source_row == row_count - 1 - row,
                start == source_row * stride,
                start + stride <= row_count * stride,
                image.len() == row_count * stride,
                out.len() == row * stride + col,
                forall|k: int|
                    0 <= k < out.len() ==> out@[k] == image@[spec_mirror_index(
                        k,
                        row_count as nat,
                        stride as nat,
                    )],
            decreases stride - col,
        {
            proof {
                lemma_row_col(row as int, col as int, stride as int);
            }
            out.push(image[start + col]);
            col += 1;
        }
        assert((row + 1) * stride == row * stride + stride) by (nonlinear_arith);
        row += 1;
    }
    assert(out@ =~= spec_flip_rows(image@, row_count as nat, stride as nat));
    out
}

/// Orient an atlas image of `height` rows of `width_in_bytes` bytes each for
/// `origin`: reverse the order of its rows for a bottom left origin, leave it
/// as it is for a top left one.
pub fn orient_image(image: &mut Vec<u8>, origin: Origin, height: usize, width_in_bytes: usize)
    requires
        old(image).len() == height * width_in_bytes,
    ensures
        final(image)@ == spec_orient(old(image)@, origin, height as nat, width_in_bytes as nat),
{
    if origin == Origin::BottomLeft {
        let flipped = flip_rows(image, height, width_in_bytes);
        *image = flipped;
    }
}

/// An image held as raw bytes, row after row, together with its layout.
#[derive(Clone, Debug)]
pub struct TextureImage2D {
    /// The width of the image in pixels.
    pub width: usize,
    /// The height of the image in pixels.
    pub height: usize,
    /// The number of channels per pixel.
    pub channel_count: usize,
    /// The number of bytes per pixel.
    pub bytes_per_pixel: usize,
    /// The layout of each pixel.
    pub color_type: ColorType,
    /// The pixels, row after row.
    pub data: Vec<u8>,
}

impl TextureImage2D {
    /// The layout fields agree with the color type and the buffer holds
    /// exactly `width * height` pixels.
    pub open spec fn wf(&self) -> bool {
        &&& self.channel_count == self.color_type.spec_channel_count()
        &&& self.bytes_per_pixel == self.color_type.spec_bytes_per_pixel()
        &&& self.data.len() == self.width * self.height * self.bytes_per_pixel
    }

    #[inline]
    pub fn new(width: usize, height: usize, color_type: ColorType, data: Vec<u8>) -> (r: TextureImage2D)
        requires
            data.len() == width * height * color_type.spec_bytes_per_pixel(),
        ensures
            r.wf(),
            r.width == width,
            r.height == height,
            r.color_type == color_type,
            r.data@ == data@,
    {
        TextureImage2D {
            width: width,
            height: height,
            channel_count: color_type.channel_count(),
            bytes_per_pixel: color_type.bytes_per_pixel(),
            color_type: color_type,
            data: data,
        }
    }

    /// Decide whether the layout fields agree with the color type and the
    /// buffer holds exactly `width * height` pixels.
    pub fn is_well_formed(&self) -> (r: bool)
        ensures
            r == self.wf(),
    {
        if self.channel_count != self.color_type.channel_count() {
            return false;
        }
        if self.bytes_per_pixel != self.color_type.bytes_per_pixel() {
            return false;
        }
        match self.width.checked_mul(self.height) {
            Some(area) => match area.checked_mul(self.bytes_per_pixel) {
                Some(len) => self.data.len() == len,
                None => false,
            },
            None => {
                proof {
                    assert(self.width * self.height <= self.width * self.height * self.bytes_per_pixel)
                        by (nonlinear_arith)
                        requires
                            self.bytes_per_pixel >= 1,
                            self.width * self.height >= 0,
                    ;
                }
                false
            },
        }
    }

    /// The number of pixels in the image.
    #[inline]
    pub fn len_pixels(&self) -> (r: usize)
        requires
            self.wf(),
        ensures
            r == self.width * self.height,
    {
        proof {
            let n = self.width * self.height;
            assert(n <= n * self.bytes_per_pixel) by (nonlinear_arith)
                requires
                    n >= 0,
                    self.bytes_per_pixel >= 1,
            ;
        }
        self.width * self.height
    }

    /// The number of bytes in the image.
    #[inline]
    pub fn len_bytes(&self) -> (r: usize)
        requires
            self.wf(),
        ensures
            r == self.width * self.height * self.bytes_per_pixel,
            r == self.data.len(),
    {
        self.data.len()
    }

    /// The raw bytes of the image, row after row.
    #[inline]
    pub fn as_bytes(&self) -> (r: &[u8])
        ensures
            r@ == self.data@,
    {
        self.data.as_slice()
    }
}

} // verus!
