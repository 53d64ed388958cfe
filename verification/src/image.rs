//! Images: pixel layouts, raw bitmaps and the handles of images that live on
//! the graphics device.

use vstd::prelude::*;
use crate::dimen::{UVec2, Vector2};

verus! {

/// The layout of one pixel in a buffer of bytes.
#[derive(Clone, Copy, Debug, PartialEq, Eq, Hash, Structural)]
pub enum ImageDataType {
    /// Red, green, blue: three bytes.
    RGB,
    /// Red, green, blue, alpha: four bytes.
    RGBA,
}

/// How an image is sampled when it is drawn larger or smaller than it is.
#[derive(Clone, Copy, Debug, PartialEq, Eq, Hash, Structural)]
pub enum ImageSmoothingMode {
    NearestNeighbor,
    Linear,
}

/// Why an image could not be created.
#[derive(Clone, Copy, Debug, PartialEq, Eq, Hash, Structural)]
pub enum ImageCreationError {
    /// The buffer does not hold width times height pixels of the declared
    /// layout.
    InvalidDataLength,
    /// The file's bytes could not be decoded.
    DecodingFailed,
}

impl ImageDataType {
    /// How many bytes one pixel takes.
    pub open spec fn spec_bytes_per_pixel(&self) -> nat {
        match self {
            ImageDataType::RGB => 3,
            ImageDataType::RGBA => 4,
        }
    }

    /// How many bytes one pixel takes.
    pub fn bytes_per_pixel(&self) -> (n: usize)
        ensures
            n == self.spec_bytes_per_pixel(),
    {
        match self {
            ImageDataType::RGB => 3,
            ImageDataType::RGBA => 4,
        }
    }
}

/// How many bytes an image of the given size and layout takes.
pub open spec fn byte_length(size: UVec2, data_type: ImageDataType) -> nat {
    (size.x as nat) * (size.y as nat) * data_type.spec_bytes_per_pixel()
}

/// Whether `length` bytes are exactly an image of the given size and layout.
pub fn is_byte_length(length: usize, size: UVec2, data_type: ImageDataType) -> (fits: bool)
    ensures
        fits == (length as nat == byte_length(size, data_type)),
{
    assert(size.x * size.y <= 0xffff_ffff * 0xffff_ffff) by (nonlinear_arith)
        requires
            size.x <= 0xffff_ffff,
            size.y <= 0xffff_ffff,
    ;
    let pixels: u128 = (size.x as u128) * (size.y as u128);
    let per_pixel: u128 = data_type.bytes_per_pixel() as u128;
    assert(pixels * per_pixel <= 0xffff_ffff * 0xffff_ffff * 4) by (nonlinear_arith)
        requires
            pixels <= 0xffff_ffff * 0xffff_ffff,
            per_pixel <= 4,
    ;
    let expected: u128 = pixels * per_pixel;
    assert(expected as nat == byte_length(size, data_type)) by (nonlinear_arith)
        requires
            expected == pixels * per_pixel,
            pixels == size.x * size.y,
            per_pixel == data_type.spec_bytes_per_pixel(),
            byte_length(size, data_type) == (size.x as nat) * (size.y as nat)
                * data_type.spec_bytes_per_pixel(),
    ;
    length as u128 == expected
}

/// An image on the graphics device. A handle is valid only with the context
/// that made it.
#[derive(Clone, Copy, Debug, PartialEq, Eq, Hash, Structural)]
pub struct ImageHandle {
    context: u64,
    index: usize,
    width: u32,
    height: u32,
    data_type: ImageDataType,
    smoothing_mode: ImageSmoothingMode,
}

impl ImageHandle {
    /// The context that made the handle.
    pub closed spec fn spec_context(&self) -> u64 {
        self.context
    }

    /// The place of the image among those that its context made.
    pub closed spec fn spec_index(&self) -> usize {
        self.index
    }

    pub closed spec fn spec_size(&self) -> UVec2 {
        Vector2 { x: self.width, y: self.height }
    }

    pub closed spec fn spec_data_type(&self) -> ImageDataType {
        self.data_type
    }

    pub closed spec fn spec_smoothing_mode(&self) -> ImageSmoothingMode {
        self.smoothing_mode
    }

    pub(crate) fn new(
        context: u64,
        index: usize,
        size: UVec2,
        data_type: ImageDataType,
        smoothing_mode: ImageSmoothingMode,
    ) -> (h: Self)
        ensures
            h.spec_context() == context,
            h.spec_index() == index,
            h.spec_size() == size,
            h.spec_data_type() == data_type,
            h.spec_smoothing_mode() == smoothing_mode,
    {
        ImageHandle { context, index, width: size.x, height: size.y, data_type, smoothing_mode }
    }

    /// The size of the image in pixels.
    pub fn size(&self) -> (s: UVec2)
        ensures
            s == self.spec_size(),
    {
        Vector2 { x: self.width, y: self.height }
    }

    /// The layout in which the image's pixels were given.
    pub fn data_type(&self) -> (t: ImageDataType)
        ensures
            t == self.spec_data_type(),
    {
        self.data_type
    }

    pub fn smoothing_mode(&self) -> (m: ImageSmoothingMode)
        ensures
            m == self.spec_smoothing_mode(),
    {
        self.smoothing_mode
    }

    /// The context that made the handle.
    pub fn context(&self) -> (c: u64)
        ensures
            c == self.spec_context(),
    {
        self.context
    }

    /// The place of the image among those that its context made.
    pub fn index(&self) -> (i: usize)
        ensures
            i == self.spec_index(),
    {
        self.index
    }

    /// Whether two handles are the same handle.
    pub fn same(&self, other: &ImageHandle) -> (same: bool)
        ensures
            same == (*self == *other),
    {
        *self == *other
    }
}

/// The byte at place `i` of pixels brought from the layout `from` to the
/// layout `to`: the same channel of the same pixel, and full strength for an
/// alpha channel that `from` does not have.
pub open spec fn converted_byte(data: Seq<u8>, from: ImageDataType, to: ImageDataType, i: int) -> u8 {
    let pixel = i / to.spec_bytes_per_pixel() as int;
    let channel = i % to.spec_bytes_per_pixel() as int;
    if channel < from.spec_bytes_per_pixel() {
        data[pixel * from.spec_bytes_per_pixel() + channel]
    } else {
        255
    }
}

/// Pixels brought from the layout `from` to the layout `to`, pixel by pixel
/// and channel by channel. Bytes at the end that do not make a whole pixel
/// are left out.
pub open spec fn converted(data: Seq<u8>, from: ImageDataType, to: ImageDataType) -> Seq<u8> {
    Seq::new(
        ((data.len() / from.spec_bytes_per_pixel()) * to.spec_bytes_per_pixel()) as nat,
        |i: int| converted_byte(data, from, to, i),
    )
}

/// Brings pixels from the layout `from` to the layout `to`.
pub fn convert_pixels(data: &[u8], from: ImageDataType, to: ImageDataType) -> (out: Vec<u8>)
    ensures
        out@ == converted(data@, from, to),
{
    let from_size = from.bytes_per_pixel();
    let to_size = to.bytes_per_pixel();
    let pixels = data.len() / from_size;
    let mut out: Vec<u8> = Vec::new();
    let mut pixel: usize = 0;
    while pixel < pixels
        invariant
            pixel <= pixels,
            data@.len() <= usize::MAX,
            pixels == data@.len() / from.spec_bytes_per_pixel(),
            from_size == from.spec_bytes_per_pixel(),
            to_size == to.spec_bytes_per_pixel(),
            out@.len() == pixel * to_size,
            forall|i: int| 0 <= i < out@.len() ==> out@[i] == converted_byte(data@, from, to, i),
        decreases pixels - pixel,
    {
        let mut channel: usize = 0;
        while channel < to_size
            invariant
                pixel < pixels,
                channel <= to_size,
                data@.len() <= usize::MAX,
                pixels == data@.len() / from.spec_bytes_per_pixel(),
                from_size == from.spec_bytes_per_pixel(),
                to_size == to.spec_bytes_per_pixel(),
                out@.len() == pixel * to_size + channel,
                forall|i: int|
                    0 <= i < out@.len() ==> out@[i] == converted_byte(data@, from, to, i),
            decreases to_size - channel,
        {
            let ghost at = out@.len() as int;
            assert(at / to_size as int == pixel && at % to_size as int == channel) by {
                lemma_split(pixel as int, channel as int, to_size as int);
            }
            let byte = if channel < from_size {
                assert(0 <= pixel * from_size && pixel * from_size + channel < data@.len()) by {
                    lemma_within(
                        pixel as int,
                        channel as int,
                        from_size as int,
                        data@.len() as int,
                    );
                    lemma_within(pixel as int, 0, from_size as int, data@.len() as int);
                }
                data[pixel * from_size + channel]
            } else {
                255
            };
            out.push(byte);
            channel += 1;
        }
        pixel += 1;
        assert(out@.len() == pixel * to_size) by (nonlinear_arith)
            requires
                out@.len() == (pixel - 1) * to_size + to_size,
        ;
    }
    assert(out@ =~= converted(data@, from, to));
    out
}

proof fn lemma_split(q: int, r: int, d: int)
    requires
        0 <= q,
        0 <= r < d,
    ensures
        (q * d + r) / d == q,
        (q * d + r) % d == r,
{
    vstd::arithmetic::div_mod::lemma_fundamental_div_mod_converse(q * d + r, d, q, r);
}

proof fn lemma_within(q: int, r: int, d: int, len: int)
    requires
        0 <= q < len / d,
        0 <= r < d,
        0 <= len,
    ensures
        0 <= q * d + r < len,
{
    vstd::arithmetic::div_mod::lemma_fundamental_div_mod(len, d);
    assert(q * d + r < (len / d) * d) by (nonlinear_arith)
        requires
            0 <= q < len / d,
            0 <= r < d,
    ;
    assert(0 <= q * d + r) by (nonlinear_arith)
        requires
            0 <= q,
            0 <= r,
            0 < d,
    ;
    vstd::arithmetic::div_mod::lemma_mod_bound(len, d);
    assert((len / d) * d == d * (len / d)) by (nonlinear_arith);
}

/// Pixels brought to the layout that they are in are what they were, where
/// they are whole pixels.
pub proof fn lemma_same_layout(data: Seq<u8>, layout: ImageDataType)
    requires
        data.len() % layout.spec_bytes_per_pixel() == 0,
    ensures
        converted(data, layout, layout) == data,
{
    let d = layout.spec_bytes_per_pixel() as int;
    vstd::arithmetic::div_mod::lemma_fundamental_div_mod(data.len() as int, d);
    assert((data.len() as int / d) * d == d * (data.len() as int / d)) by (nonlinear_arith);
    assert forall|i: int| 0 <= i < data.len() implies converted_byte(data, layout, layout, i)
        == data[i] by {
        vstd::arithmetic::div_mod::lemma_fundamental_div_mod(i, d);
        vstd::arithmetic::div_mod::lemma_mod_bound(i, d);
        assert((i / d) * d == d * (i / d)) by (nonlinear_arith);
    }
    assert(converted(data, layout, layout) =~= data);
}

/// Pixels without alpha that are given an alpha channel and brought back
/// are what they were, where they are whole pixels.
pub proof fn lemma_alpha_added_and_dropped(data: Seq<u8>)
    requires
        data.len() % 3 == 0,
    ensures
        converted(converted(data, ImageDataType::RGB, ImageDataType::RGBA), ImageDataType::RGBA,
            ImageDataType::RGB) == data,
{
    let wide = converted(data, ImageDataType::RGB, ImageDataType::RGBA);
    let back = converted(wide, ImageDataType::RGBA, ImageDataType::RGB);
    let n = data.len() as int / 3;
    assert(data.len() == n * 3);
    assert(wide.len() == n * 4);
    assert(back.len() == n * 3);
    assert forall|i: int| 0 <= i < data.len() implies back[i] == data[i] by {
        let p = i / 3;
        let c = i % 3;
        assert(0 <= p < n);
        let j = p * 4 + c;
        assert(j / 4 == p && j % 4 == c);
        assert(0 <= j < wide.len());
        assert(back[i] == wide[j]);
        assert(wide[j] == data[p * 3 + c]);
    }
    assert(back =~= data);
}

/// Pixels in a buffer of bytes, with their size and layout.
#[derive(Clone, Debug)]
pub struct RawBitmapData {
    data: Vec<u8>,
    size: UVec2,
    format: ImageDataType,
}

impl RawBitmapData {
    pub closed spec fn spec_data(&self) -> Seq<u8> {
        self.data@
    }

    pub closed spec fn spec_size(&self) -> UVec2 {
        self.size
    }

    pub closed spec fn spec_format(&self) -> ImageDataType {
        self.format
    }

    /// The bitmap of the given bytes, or nothing unless they are exactly
    /// `size.x * size.y` pixels of the layout.
    pub fn new(data: Vec<u8>, size: UVec2, format: ImageDataType) -> (r: Option<Self>)
        ensures
            r.is_some() <==> data@.len() == byte_length(size, format),
            r matches Some(b) ==> b.spec_data() == data@ && b.spec_size() == size
                && b.spec_format() == format,
    {
        if is_byte_length(data.len(), size, format) {
            Some(RawBitmapData { data, size, format })
        } else {
            None
        }
    }

    /// The bytes of the pixels, row by row from the top.
    pub fn data(&self) -> (d: &Vec<u8>)
        ensures
            d@ == self.spec_data(),
    {
        &self.data
    }

    /// The size in pixels.
    pub fn size(&self) -> (s: UVec2)
        ensures
            s == self.spec_size(),
    {
        self.size
    }

    /// The layout of a pixel.
    pub fn format(&self) -> (f: ImageDataType)
        ensures
            f == self.spec_format(),
    {
        self.format
    }
}

} // verus!
