use vstd::prelude::*;

use crate::le_bytes::{le16_bytes, le16_value, le32_bytes, push_u16_le, push_u32_le, read_u16_le};

verus! {

/// Why an image could not be decoded, encoded or read.
#[derive(Debug, Clone, Copy, PartialEq, Eq, Structural)]
pub enum TextureError {
    /// The file name's extension names no format this library knows.
    UnsupportedFile,
    /// The format is known, but this direction of it is not provided.
    NotImplemented,
    /// The header is shorter than its fixed size.
    TruncatedHeader,
    /// The image carries a color map.
    ColorMapped,
    /// The image is not stored as uncompressed true color.
    NotUncompressedRgb,
    /// The image declares a nonzero origin.
    NonZeroOffset,
    /// The image has neither 24 nor 32 bits per pixel.
    UnsupportedBitsPerPixel,
    /// The image descriptor asks for an origin other than the top left.
    UnsupportedOrigin,
    /// The pixel data ends before the declared image size.
    TruncatedPixels,
    /// A pixel position lies outside the image.
    PixelOutOfBounds,
}

/// Length of the fixed header of a truecolor (TGA) image.
pub const TGA_HEADER_SIZE: usize = 18;

/// Length of the two headers that precede the pixels of a bitmap (BMP) file.
pub const BMP_HEADERS_SIZE: u32 = 54;

/// Length of a bitmap's file header.
pub const BMP_FILE_HEADER_SIZE: u32 = 14;

/// Length of a bitmap's info header.
pub const BMP_INFO_HEADER_SIZE: u32 = 40;

/// The little-endian 16-bit field of `data` at `at`.
pub open spec fn field16(data: Seq<u8>, at: int) -> int {
    le16_value(data[at], data[at + 1])
}

/// Bytes per pixel of a well-formed TGA image.
pub open spec fn tga_bytes_per_pixel(data: Seq<u8>) -> int {
    data[16] as int / 8
}

/// Where the pixel data of a TGA image starts: after the header, the image
/// identification field and the color map.
pub open spec fn tga_pixels_start(data: Seq<u8>) -> int {
    TGA_HEADER_SIZE + data[0] + field16(data, 5) * data[7] / 8
}

/// Width declared by a TGA header.
pub open spec fn tga_width(data: Seq<u8>) -> int {
    field16(data, 12)
}

/// Height declared by a TGA header.
pub open spec fn tga_height(data: Seq<u8>) -> int {
    field16(data, 14)
}

/// The first reason, checked in this order, why `data` is not a TGA image
/// this library reads; `None` when it is one.
pub open spec fn tga_error(data: Seq<u8>) -> Option<TextureError> {
    if data.len() < TGA_HEADER_SIZE {
        Some(TextureError::TruncatedHeader)
    } else if data[1] != 0 {
        Some(TextureError::ColorMapped)
    } else if data[2] != 2 {
        Some(TextureError::NotUncompressedRgb)
    } else if field16(data, 8) != 0 || field16(data, 10) != 0 {
        Some(TextureError::NonZeroOffset)
    } else if data[16] != 24 && data[16] != 32 {
        Some(TextureError::UnsupportedBitsPerPixel)
    } else if data[17] & 0x30u8 != 0 {
        Some(TextureError::UnsupportedOrigin)
    } else if tga_pixels_start(data) + tga_width(data) * tga_height(data)
        * tga_bytes_per_pixel(data) > data.len() {
        Some(TextureError::TruncatedPixels)
    } else {
        None
    }
}

/// Channel `c` (0 red, 1 green, 2 blue) of pixel `i` of pixel data that
/// starts at `start` and stores `bpp` bytes per pixel in blue, green, red
/// (alpha) order. An alpha byte scales the color by `alpha / 255`.
pub open spec fn tga_channel(data: Seq<u8>, start: int, bpp: int, i: int, c: int) -> u8 {
    let src = data[start + i * bpp + (2 - c)];
    if bpp == 4 {
        (src * data[start + i * bpp + 3] / 255) as u8
    } else {
        src
    }
}

/// The red, green, blue bytes of the first `n` pixels.
pub open spec fn tga_rgb_prefix(data: Seq<u8>, start: int, bpp: int, n: int) -> Seq<u8> {
    Seq::new((3 * n) as nat, |k: int| tga_channel(data, start, bpp, k / 3, k % 3))
}

/// The red, green, blue bytes of every pixel of a well-formed TGA image.
pub open spec fn tga_rgb(data: Seq<u8>) -> Seq<u8> {
    tga_rgb_prefix(
        data,
        tga_pixels_start(data),
        tga_bytes_per_pixel(data),
        tga_width(data) * tga_height(data),
    )
}

/// The two headers of a bitmap file of `width` by `height` pixels stored as
/// 24-bit rows with no compression.
pub open spec fn bmp_headers(width: u32, height: u32) -> Seq<u8> {
    le16_bytes(0x4D42u16) + le32_bytes((BMP_HEADERS_SIZE + width * height * 3) as u32)
        + le16_bytes(0u16) + le16_bytes(0u16) + le32_bytes(BMP_HEADERS_SIZE)
        + le32_bytes(BMP_INFO_HEADER_SIZE) + le32_bytes(width) + le32_bytes(height)
        + le16_bytes(1u16) + le16_bytes(24u16) + le32_bytes(0u32) + le32_bytes(0u32)
        + le32_bytes(0u32) + le32_bytes(0u32) + le32_bytes(0u32) + le32_bytes(0u32)
}

/// Pixel bytes of a bitmap: each red, green, blue triple of `rgb` in blue,
/// green, red order, rows kept in the buffer's order.
pub open spec fn bmp_pixels(rgb: Seq<u8>) -> Seq<u8> {
    Seq::new(rgb.len(), |k: int| rgb[k - k % 3 + (2 - k % 3)])
}

/// `c * a / 255`: a channel premultiplied by an alpha byte.
fn scale_by_alpha(c: u8, a: u8) -> (r: u8)
    ensures
        r == (c * a / 255) as u8,
        r as int == c * a / 255,
{
    assert(c as u32 * a as u32 <= 255 * 255) by (nonlinear_arith)
        requires
            c <= 255,
            a <= 255,
    ;
    let p: u32 = c as u32 * a as u32;
    assert(p / 255 <= 255) by (nonlinear_arith)
        requires
            p <= 255 * 255,
    ;
    (p / 255) as u8
}

/// Image file formats, as named by a file extension.
#[derive(Debug, Clone, Copy, PartialEq, Eq, Structural)]
pub enum FileFormat {
    Tga,
    Bmp,
}

/// The format that a file extension (without its dot) names, if any.
pub open spec fn format_of(ext: Seq<char>) -> Option<FileFormat> {
    if ext == seq!['t', 'g', 'a'] {
        Some(FileFormat::Tga)
    } else if ext == seq!['b', 'm', 'p'] {
        Some(FileFormat::Bmp)
    } else {
        None
    }
}

/// Whether `s` holds exactly the three characters `a`, `b`, `c`.
fn is_three_chars(s: &str, a: char, b: char, c: char) -> (r: bool)
    ensures
        r == (s@ == seq![a, b, c]),
{
    if s.unicode_len() != 3 {
        assert(s@.len() != 3);
        return false;
    }
    let r = s.get_char(0) == a && s.get_char(1) == b && s.get_char(2) == c;
    assert(r ==> s@ =~= seq![a, b, c]);
    r
}

/// The format that the file extension `ext` (without its dot) names.
pub fn file_format(ext: &str) -> (r: Option<FileFormat>)
    ensures
        r == format_of(ext@),
{
    if is_three_chars(ext, 't', 'g', 'a') {
        Some(FileFormat::Tga)
    } else if is_three_chars(ext, 'b', 'm', 'p') {
        Some(FileFormat::Bmp)
    } else {
        None
    }
}

/// An image of `width` by `height` pixels, stored row by row from the top,
/// three bytes (red, green, blue) per pixel.
#[derive(Debug, Clone)]
pub struct Texture {
    pub width: u32,
    pub height: u32,
    pub color_buffer: Vec<u8>,
}

impl Texture {
    /// The buffer holds exactly three bytes for each pixel.
    pub open spec fn wf(&self) -> bool {
        self.color_buffer@.len() == self.width * self.height * 3
    }

    /// Offset in `color_buffer` of the pixel at `(x, y)`.
    pub open spec fn pixel_offset(&self, x: int, y: int) -> int {
        (x + y * self.width) * 3
    }

    /// Decodes an uncompressed 24- or 32-bit truecolor (TGA) image whose
    /// origin is at the top left. Color-mapped, compressed, offset and
    /// bottom-origin images are refused, as are files shorter than what their
    /// header declares.
    pub fn from_tga(data: &[u8]) -> (r: Result<Texture, TextureError>)
        ensures
            r is Err <==> tga_error(data@) is Some,
            r matches Err(e) ==> tga_error(data@) == Some(e),
            r matches Ok(t) ==> {
                &&& t.wf()
                &&& t.width == tga_width(data@)
                &&& t.height == tga_height(data@)
                &&& t.color_buffer@ == tga_rgb(data@)
            },
    {
        if data.len() < TGA_HEADER_SIZE {
            return Err(TextureError::TruncatedHeader);
        }
        let ident_size = data[0];
        let color_map_type = data[1];
        let image_type = data[2];
        let color_map_length = read_u16_le(data, 5);
        let color_map_bits_per_entry = data[7];
        let x_offset = read_u16_le(data, 8);
        let y_offset = read_u16_le(data, 10);
        let x_size = read_u16_le(data, 12);
        let y_size = read_u16_le(data, 14);
        let bits_per_pixel = data[16];
        let image_descriptor = data[17];

        if color_map_type != 0 {
            return Err(TextureError::ColorMapped);
        }
        if image_type != 2 {
            return Err(TextureError::NotUncompressedRgb);
        }
        if x_offset != 0 || y_offset != 0 {
            return Err(TextureError::NonZeroOffset);
        }
        if bits_per_pixel != 24 && bits_per_pixel != 32 {
            return Err(TextureError::UnsupportedBitsPerPixel);
        }
        if image_descriptor & 0x30u8 != 0 {
            return Err(TextureError::UnsupportedOrigin);
        }

        let bpp: u64 = (bits_per_pixel / 8) as u64;
        assert(color_map_length as u64 * color_map_bits_per_entry as u64 <= 0xFFFF * 0xFF)
            by (nonlinear_arith)
            requires
                color_map_length <= 0xFFFF,
                color_map_bits_per_entry <= 0xFF,
        ;
        let start: u64 = TGA_HEADER_SIZE as u64 + ident_size as u64
            + color_map_length as u64 * color_map_bits_per_entry as u64 / 8;
        assert(x_size as u64 * y_size as u64 <= 0xFFFF * 0xFFFF) by (nonlinear_arith)
            requires
                x_size <= 0xFFFF,
                y_size <= 0xFFFF,
        ;
        let pixel_count: u64 = x_size as u64 * y_size as u64;
        assert(pixel_count * bpp <= 0xFFFF * 0xFFFF * 4) by (nonlinear_arith)
            requires
                pixel_count <= 0xFFFF * 0xFFFF,
                bpp <= 4,
        ;
        if start + pixel_count * bpp > data.len() as u64 {
            return Err(TextureError::TruncatedPixels);
        }

        let ghost d = data@;
        assert(start == tga_pixels_start(d));
        assert(bpp == tga_bytes_per_pixel(d));
        assert(pixel_count == tga_width(d) * tga_height(d));

        let n: usize = pixel_count as usize;
        let step: usize = bpp as usize;
        let mut base: usize = start as usize;
        let mut out: Vec<u8> = Vec::new();
        let mut i: usize = 0;
        while i < n
            invariant
                d == data@,
                step == 3 || step == 4,
                i <= n,
                base == start + i * step,
                start + n * step <= d.len(),
                out@ =~= tga_rgb_prefix(d, start as int, step as int, i as int),
            decreases n - i,
        {
            assert(base + step <= start + n * step) by (nonlinear_arith)
                requires
                    base == start + i * step,
                    i < n,
            ;
            let b = data[base];
            let g = data[base + 1];
            let red = data[base + 2];
            if step == 4 {
                let a = data[base + 3];
                out.push(scale_by_alpha(red, a));
                out.push(scale_by_alpha(g, a));
                out.push(scale_by_alpha(b, a));
            } else {
                out.push(red);
                out.push(g);
                out.push(b);
            }
            proof {
                let ii = i as int;
                let next = tga_rgb_prefix(d, start as int, step as int, ii + 1);
                assert forall|k: int| 0 <= k < 3 * ii + 3 implies out@[k] == next[k] by {
                    if k >= 3 * ii {
                        assert(k / 3 == ii);
                    }
                }
            }
            base = base + step;
            i = i + 1;
        }
        assert(out@.len() == x_size as int * y_size as int * 3);
        Ok(Texture { width: x_size as u32, height: y_size as u32, color_buffer: out })
    }

    /// Encodes the image as an uncompressed 24-bit bitmap (BMP): a file
    /// header and an info header, then each pixel's blue, green and red
    /// bytes, rows in the buffer's order and without padding.
    pub fn to_bmp(&self) -> (r: Vec<u8>)
        requires
            self.wf(),
            BMP_HEADERS_SIZE + self.width * self.height * 3 <= u32::MAX,
            self.width <= i32::MAX,
            self.height <= i32::MAX,
        ensures
            r@ == bmp_headers(self.width, self.height) + bmp_pixels(self.color_buffer@),
    {
        let w = self.width;
        let h = self.height;
        assert(w as int * h as int * 3 <= u32::MAX);
        let image_data_size: u32 = w * h * 3;
        let mut out: Vec<u8> = Vec::new();
        push_u16_le(&mut out, 0x4D42u16);
        push_u32_le(&mut out, BMP_HEADERS_SIZE + image_data_size);
        push_u16_le(&mut out, 0);
        push_u16_le(&mut out, 0);
        push_u32_le(&mut out, BMP_FILE_HEADER_SIZE + BMP_INFO_HEADER_SIZE);
        push_u32_le(&mut out, BMP_INFO_HEADER_SIZE);
        push_u32_le(&mut out, w);
        push_u32_le(&mut out, h);
        push_u16_le(&mut out, 1);
        push_u16_le(&mut out, 24);
        push_u32_le(&mut out, 0);
        push_u32_le(&mut out, 0);
        push_u32_le(&mut out, 0);
        push_u32_le(&mut out, 0);
        push_u32_le(&mut out, 0);
        push_u32_le(&mut out, 0);
        let ghost headers = bmp_headers(w, h);
        assert(out@ =~= headers);

        let ghost rgb = self.color_buffer@;
        let len = self.color_buffer.len();
        let mut k: usize = 0;
        while k < len
            invariant
                rgb == self.color_buffer@,
                len == rgb.len(),
                len % 3 == 0,
                k % 3 == 0,
                k <= len,
                out@ =~= headers + bmp_pixels(rgb).subrange(0, k as int),
            decreases len - k,
        {
            out.push(self.color_buffer[k + 2]);
            out.push(self.color_buffer[k + 1]);
            out.push(self.color_buffer[k]);
            proof {
                let next = bmp_pixels(rgb).subrange(0, k + 3);
                assert(next[k as int] == rgb[k + 2]);
                assert(next[k + 1] == rgb[k + 1]);
                assert(next[k + 2] == rgb[k as int]);
                assert(out@ =~= headers + next);
            }
            k = k + 3;
        }
        assert(bmp_pixels(rgb).subrange(0, len as int) =~= bmp_pixels(rgb));
        out
    }

    /// The red, green and blue bytes of the pixel at `(x, y)`, or
    /// `PixelOutOfBounds` when that position lies outside the image.
    pub fn pixel_rgb(&self, x: u32, y: u32) -> (r: Result<[u8; 3], TextureError>)
        requires
            self.wf(),
        ensures
            r is Err <==> (x >= self.width || y >= self.height),
            r matches Err(e) ==> e == TextureError::PixelOutOfBounds,
            r matches Ok(rgb) ==> rgb@ == self.color_buffer@.subrange(
                self.pixel_offset(x as int, y as int),
                self.pixel_offset(x as int, y as int) + 3,
            ),
    {
        if x >= self.width || y >= self.height {
            return Err(TextureError::PixelOutOfBounds);
        }
        assert((x + y * self.width) * 3 + 3 <= self.width * self.height * 3) by (nonlinear_arith)
            requires
                x < self.width,
                y < self.height,
        ;
        let len = self.color_buffer.len();
        assert(len == self.width * self.height * 3);
        assert(y * self.width <= x + y * self.width);
        let row_start: usize = y as usize * self.width as usize;
        let index: usize = (x as usize + row_start) * 3;
        let rgb = [self.color_buffer[index], self.color_buffer[index + 1], self.color_buffer[index + 2]];
        assert(rgb@ =~= self.color_buffer@.subrange(index as int, index + 3));
        Ok(rgb)
    }

    /// Decodes `data` as the format that the file extension `ext` names:
    /// a TGA image is decoded as by [`Texture::from_tga`]; reading a bitmap is
    /// not provided; any other extension is refused.
    pub fn load_from_bytes(ext: &str, data: &[u8]) -> (r: Result<Texture, TextureError>)
        ensures
            format_of(ext@) == Some(FileFormat::Tga) ==> {
                &&& (r is Err <==> tga_error(data@) is Some)
                &&& (r matches Err(e) ==> tga_error(data@) == Some(e))
                &&& (r matches Ok(t) ==> {
                    &&& t.wf()
                    &&& t.width == tga_width(data@)
                    &&& t.height == tga_height(data@)
                    &&& t.color_buffer@ == tga_rgb(data@)
                })
            },
            format_of(ext@) == Some(FileFormat::Bmp) ==> r == Err::<Texture, TextureError>(
                TextureError::NotImplemented,
            ),
            format_of(ext@) is None ==> r == Err::<Texture, TextureError>(
                TextureError::UnsupportedFile,
            ),
    {
        match file_format(ext) {
            Some(FileFormat::Tga) => Texture::from_tga(data),
            Some(FileFormat::Bmp) => Err(TextureError::NotImplemented),
            None => Err(TextureError::UnsupportedFile),
        }
    }

    /// Encodes the image in the format that the file extension `ext` names:
    /// a bitmap is encoded as by [`Texture::to_bmp`]; writing a TGA image is
    /// not provided; any other extension is refused.
    pub fn save_to_bytes(&self, ext: &str) -> (r: Result<Vec<u8>, TextureError>)
        requires
            self.wf(),
            BMP_HEADERS_SIZE + self.width * self.height * 3 <= u32::MAX,
            self.width <= i32::MAX,
            self.height <= i32::MAX,
        ensures
            format_of(ext@) == Some(FileFormat::Bmp) ==> (r matches Ok(bytes) && bytes@
                == bmp_headers(self.width, self.height) + bmp_pixels(self.color_buffer@)),
            format_of(ext@) == Some(FileFormat::Tga) ==> r == Err::<Vec<u8>, TextureError>(
                TextureError::NotImplemented,
            ),
            format_of(ext@) is None ==> r == Err::<Vec<u8>, TextureError>(
                TextureError::UnsupportedFile,
            ),
    {
        match file_format(ext) {
            Some(FileFormat::Bmp) => Ok(self.to_bmp()),
            Some(FileFormat::Tga) => Err(TextureError::NotImplemented),
            None => Err(TextureError::UnsupportedFile),
        }
    }
}

} // verus!
