//! The two raw clipboard byte formats a paste can take: a device-independent
//! bitmap (DIB) for pasting raster content, and a file-drop list for pasting
//! into a file manager as a dropped file.
//!
//! Both are built here as exact byte payloads from plain values; handing
//! them to the OS clipboard happens outside the library.

use vstd::prelude::*;
use vstd::arithmetic::div_mod::lemma_fundamental_div_mod_converse;

verus! {

/// The little-endian bytes of a sixteen-bit value.
pub open spec fn spec_le16(x: u16) -> Seq<u8> {
    seq![(x % 256) as u8, (x / 256) as u8]
}

/// The little-endian bytes of a thirty-two-bit value.
pub open spec fn spec_le32(x: u32) -> Seq<u8> {
    seq![
        (x % 256) as u8,
        ((x / 256) % 256) as u8,
        ((x / 0x10000) % 256) as u8,
        ((x / 0x1000000) % 256) as u8,
    ]
}

/// Appends the little-endian bytes of a sixteen-bit value.
fn push_le16(v: &mut Vec<u8>, x: u16)
    ensures
        final(v)@ == old(v)@ + spec_le16(x),
{
    v.push((x % 256) as u8);
    v.push((x / 256) as u8);
    proof {
        assert(v@ =~= old(v)@ + spec_le16(x));
    }
}

/// Appends the little-endian bytes of a thirty-two-bit value.
fn push_le32(v: &mut Vec<u8>, x: u32)
    ensures
        final(v)@ == old(v)@ + spec_le32(x),
{
    v.push((x % 256) as u8);
    v.push(((x / 256) % 256) as u8);
    v.push(((x / 0x10000) % 256) as u8);
    v.push(((x / 0x1000000) % 256) as u8);
    proof {
        assert(v@ =~= old(v)@ + spec_le32(x));
    }
}

/// The forty-byte bitmap info header of an uncompressed, thirty-two-bit,
/// bottom-up DIB with the given dimensions: size, width, height, one
/// plane, thirty-two bits per pixel, no compression, the pixel data size,
/// and zeroed resolution and palette fields. Width and height are stored
/// as signed values; both fit, so their bytes equal the unsigned encoding.
pub open spec fn spec_dib_header(width: u32, height: u32, size_image: u32) -> Seq<u8> {
    spec_le32(40) + spec_le32(width) + spec_le32(height) + spec_le16(1) + spec_le16(32)
        + spec_le32(0) + spec_le32(size_image) + spec_le32(0) + spec_le32(0) + spec_le32(0)
        + spec_le32(0)
}

/// Where an RGBA channel lands in BGRA order: red and blue swap, the rest
/// stay.
pub open spec fn spec_swap_channel(c: int) -> int {
    if c == 0 {
        2
    } else if c == 2 {
        0
    } else {
        c
    }
}

/// The source position, in a top-down RGBA buffer, of byte `k` of the
/// bottom-up BGRA pixel region: rows are flipped and the red and blue
/// channels of each pixel swap.
pub open spec fn spec_dib_src(width: int, height: int, k: int) -> int {
    let row_len = 4 * width;
    let y = k / row_len;
    let j = k % row_len;
    let c = j % 4;
    (height - 1 - y) * row_len + (j - c) + spec_swap_channel(c)
}

/// The pixel region of the DIB: the RGBA buffer with rows flipped bottom-up
/// and each pixel's red and blue channels swapped.
pub open spec fn spec_dib_pixels(width: int, height: int, rgba: Seq<u8>) -> Seq<u8> {
    Seq::new(rgba.len(), |k: int| rgba[spec_dib_src(width, height, k)])
}

/// Builds the DIB clipboard payload for a raster paste: the bitmap info
/// header followed by the image's pixels, rows flipped bottom-up and
/// channels reordered to BGRA.
pub fn build_dib(img: &crate::raster::RgbaBuffer) -> (r: Vec<u8>)
    requires
        img.wf(),
        1 <= img.width,
        1 <= img.height,
        4 * (img.width as int) * (img.height as int) <= 0x7FFF_FFFF,
    ensures
        r@ == spec_dib_header(img.width, img.height, (4 * img.width * img.height) as u32)
            + spec_dib_pixels(img.width as int, img.height as int, img.bytes@),
{
    let width = img.width;
    let height = img.height;
    proof {
        vstd::arithmetic::mul::lemma_mul_inequality(1, img.height as int, 4 * img.width as int);
    }
    let row_len: usize = 4 * (width as usize);
    let total: usize = img.bytes.len();
    let size_image: u32 = (4 * width * height) as u32;

    let ghost header = spec_dib_header(width, height, size_image);
    let ghost pixels = spec_dib_pixels(width as int, height as int, img.bytes@);

    let mut r: Vec<u8> = Vec::new();
    push_le32(&mut r, 40);
    push_le32(&mut r, width);
    push_le32(&mut r, height);
    push_le16(&mut r, 1);
    push_le16(&mut r, 32);
    push_le32(&mut r, 0);
    push_le32(&mut r, size_image);
    push_le32(&mut r, 0);
    push_le32(&mut r, 0);
    push_le32(&mut r, 0);
    push_le32(&mut r, 0);
    proof {
        assert(r@ =~= header);
    }

    let mut y: u32 = 0;
    let mut src_next: usize = total;
    while y < height
        invariant
            img.wf(),
            1 <= width,
            1 <= height,
            4 * (width as int) * (height as int) <= 0x7FFF_FFFF,
            row_len == 4 * (width as int),
            total == img.bytes@.len(),
            total == 4 * (width as int) * (height as int),
            size_image == total,
            header == spec_dib_header(width, height, size_image),
            pixels == spec_dib_pixels(width as int, height as int, img.bytes@),
            y <= height,
            src_next == (height - y) * (row_len as int),
            src_next <= total,
            r@.len() == 40 + (y as int) * (row_len as int),
            r@.subrange(0, 40) == header,
            forall|k: int|
                0 <= k < (y as int) * (row_len as int) ==> r@[40 + k] == #[trigger] pixels[k],
        decreases height - y,
    {
        proof {
            assert((height - y) * (row_len as int) >= 1 * (row_len as int)) by (nonlinear_arith)
                requires
                    y < height,
                    row_len >= 0,
            ;
        }
        let src_start: usize = src_next - row_len;
        proof {
            assert(src_start == (height - 1 - y) * (row_len as int)) by (nonlinear_arith)
                requires
                    src_start == (height - y) * (row_len as int) - (row_len as int),
            ;
        }
        let mut j: usize = 0;
        while j < row_len
            invariant
                img.wf(),
                1 <= width,
                1 <= height,
                y < height,
                row_len == 4 * (width as int),
                total == img.bytes@.len(),
                total == 4 * (width as int) * (height as int),
                pixels == spec_dib_pixels(width as int, height as int, img.bytes@),
                header == spec_dib_header(width, height, size_image),
                src_start == (height - 1 - y) * (row_len as int),
                src_start + row_len <= total,
                j <= row_len,
                r@.len() == 40 + (y as int) * (row_len as int) + j,
                r@.subrange(0, 40) == header,
                forall|k: int|
                    0 <= k < (y as int) * (row_len as int) + j ==> r@[40 + k]
                        == #[trigger] pixels[k],
            decreases row_len - j,
        {
            let c: usize = j % 4;
            let sc: usize = if c == 0 {
                2
            } else if c == 2 {
                0
            } else {
                c
            };
            let q: usize = j / 4;
            proof {
                assert(j == 4 * q + c);
                assert(q < width);
                assert(j - c + sc < row_len);
            }
            let src: usize = src_start + (j - c) + sc;
            let ghost k = (y as int) * (row_len as int) + j;
            proof {
                lemma_fundamental_div_mod_converse(k, row_len as int, y as int, j as int);
                assert(k / (row_len as int) == y as int);
                assert(k % (row_len as int) == j as int);
                assert(spec_dib_src(width as int, height as int, k) == src);
                assert(k < total as int) by (nonlinear_arith)
                    requires
                        k == (y as int) * (row_len as int) + (j as int),
                        0 <= (j as int) < (row_len as int),
                        0 <= (y as int) < (height as int),
                        (total as int) == 4 * (width as int) * (height as int),
                        (row_len as int) == 4 * (width as int),
                ;
                assert(0 <= k < pixels.len());
                assert(pixels[k] == img.bytes@[src as int]);
            }
            let b = img.bytes[src];
            r.push(b);
            proof {
                assert(r@.subrange(0, 40) =~= header);
            }
            j += 1;
        }
        proof {
            assert(((y + 1) as int) * (row_len as int) == (y as int) * (row_len as int) + (
            row_len as int)) by (nonlinear_arith);
        }
        src_next = src_start;
        y += 1;
    }
    proof {
        assert(r@ =~= header + pixels);
    }
    r
}

/// The twenty-byte header of a file-drop clipboard payload: the offset of
/// the file list (twenty), a zero drop point, a zero non-client flag, and
/// the wide-character flag set.
pub open spec fn spec_dropfiles_header() -> Seq<u8> {
    spec_le32(20) + spec_le32(0) + spec_le32(0) + spec_le32(0) + spec_le32(1)
}

/// UTF-16 code units as little-endian bytes.
pub open spec fn spec_utf16_le_bytes(units: Seq<u16>) -> Seq<u8> {
    Seq::new(
        2 * units.len(),
        |k: int|
            if k % 2 == 0 {
                (units[k / 2] % 256) as u8
            } else {
                (units[k / 2] / 256) as u8
            },
    )
}

/// Builds the file-drop clipboard payload from the path's UTF-16 code
/// units: the header, then the units in little-endian bytes, then the
/// path's terminator and the empty unit that ends the list.
pub fn file_drop_payload(path_utf16: &Vec<u16>) -> (r: Vec<u8>)
    requires
        path_utf16@.len() <= 0x3FF_FFFF,
        forall|i: int| 0 <= i < path_utf16@.len() ==> path_utf16@[i] != 0,
    ensures
        r@ == spec_dropfiles_header() + spec_utf16_le_bytes(path_utf16@) + seq![
            0u8,
            0u8,
            0u8,
            0u8,
        ],
{
    let ghost units = path_utf16@;
    let ghost body = spec_utf16_le_bytes(path_utf16@);
    let n = path_utf16.len();
    let mut r: Vec<u8> = Vec::new();
    push_le32(&mut r, 20);
    push_le32(&mut r, 0);
    push_le32(&mut r, 0);
    push_le32(&mut r, 0);
    push_le32(&mut r, 1);
    proof {
        assert(r@ =~= spec_dropfiles_header());
    }
    let mut i: usize = 0;
    while i < n
        invariant
            n == units.len(),
            n <= 0x3FF_FFFF,
            units == path_utf16@,
            body == spec_utf16_le_bytes(units),
            i <= n,
            r@.len() == 20 + 2 * i,
            r@.subrange(0, 20) == spec_dropfiles_header(),
            forall|k: int| 0 <= k < 2 * i ==> r@[20 + k] == #[trigger] body[k],
        decreases n - i,
    {
        let u = path_utf16[i];
        let lo = (u % 256) as u8;
        let hi = (u / 256) as u8;
        proof {
            lemma_fundamental_div_mod_converse(2 * i, 2, i as int, 0);
            lemma_fundamental_div_mod_converse(2 * i + 1, 2, i as int, 1);
            assert(body[2 * i] == lo);
            assert(body[2 * i + 1] == hi);
        }
        r.push(lo);
        r.push(hi);
        proof {
            assert(r@.subrange(0, 20) =~= spec_dropfiles_header());
        }
        i += 1;
    }
    r.push(0);
    r.push(0);
    r.push(0);
    r.push(0);
    proof {
        assert(r@ =~= spec_dropfiles_header() + body + seq![0u8, 0u8, 0u8, 0u8]);
    }
    r
}

/// The UTF-16 code units of one Unicode scalar value: itself below
/// 0x10000, a high and low surrogate pair above.
pub open spec fn spec_utf16_of_scalar(v: u32) -> Seq<u16> {
    if v < 0x10000 {
        seq![v as u16]
    } else {
        seq![
            (0xD800 + (v - 0x10000) / 0x400) as u16,
            (0xDC00 + (v - 0x10000) % 0x400) as u16,
        ]
    }
}

/// The UTF-16 encoding of a character sequence.
pub open spec fn spec_utf16_units(chars: Seq<char>) -> Seq<u16>
    decreases chars.len(),
{
    if chars.len() == 0 {
        Seq::empty()
    } else {
        spec_utf16_of_scalar(chars[0] as u32) + spec_utf16_units(chars.drop_first())
    }
}

proof fn lemma_utf16_units_snoc(chars: Seq<char>, i: int)
    requires
        0 <= i < chars.len(),
    ensures
        spec_utf16_units(chars.take(i + 1)) == spec_utf16_units(chars.take(i))
            + spec_utf16_of_scalar(chars[i] as u32),
    decreases i,
{
    if i == 0 {
        assert(chars.take(1) =~= seq![chars[0]]);
        assert(chars.take(1).drop_first() =~= Seq::<char>::empty());
        assert(chars.take(0) =~= Seq::<char>::empty());
        assert(spec_utf16_units(chars.take(i + 1)) =~= spec_utf16_units(chars.take(i))
            + spec_utf16_of_scalar(chars[i] as u32));
    } else {
        lemma_utf16_units_snoc(chars.drop_first(), i - 1);
        assert(chars.take(i + 1).drop_first() =~= chars.drop_first().take(i));
        assert(chars.take(i).drop_first() =~= chars.drop_first().take(i - 1));
        assert(chars.take(i + 1)[0] == chars[0]);
        assert(chars.take(i)[0] == chars[0]);
        assert(chars.drop_first()[i - 1] == chars[i]);
        assert(spec_utf16_units(chars.take(i + 1)) =~= spec_utf16_units(chars.take(i))
            + spec_utf16_of_scalar(chars[i] as u32));
    }
}

/// A character sequence without the NUL character encodes to UTF-16 units
/// without the zero unit: surrogates are never zero, and a non-surrogate
/// unit is the character itself.
proof fn lemma_utf16_units_nonzero(chars: Seq<char>)
    requires
        forall|i: int| 0 <= i < chars.len() ==> chars[i] != 0 as char,
    ensures
        forall|k: int|
            0 <= k < spec_utf16_units(chars).len() ==> #[trigger] spec_utf16_units(chars)[k]
                != 0,
    decreases chars.len(),
{
    if chars.len() > 0 {
        let c = chars[0];
        let v = c as u32;
        vstd::utf8::char_is_scalar(c);
        vstd::utf8::char_u32_cast(c, v);
        assert(v != 0);
        let head = spec_utf16_of_scalar(v);
        assert(forall|k: int| 0 <= k < head.len() ==> #[trigger] head[k] != 0);
        assert(forall|i: int|
            0 <= i < chars.drop_first().len() ==> chars.drop_first()[i] != 0 as char);
        lemma_utf16_units_nonzero(chars.drop_first());
        let tail = spec_utf16_units(chars.drop_first());
        assert forall|k: int| 0 <= k < spec_utf16_units(chars).len() implies #[trigger] spec_utf16_units(
            chars,
        )[k] != 0 by {
            if k < head.len() {
                assert(spec_utf16_units(chars)[k] == head[k]);
            } else {
                assert(spec_utf16_units(chars)[k] == tail[k - head.len()]);
            }
        }
    }
}

/// Each character takes at most two UTF-16 code units.
proof fn lemma_utf16_units_len(chars: Seq<char>)
    ensures
        spec_utf16_units(chars).len() <= 2 * chars.len(),
    decreases chars.len(),
{
    if chars.len() > 0 {
        lemma_utf16_units_len(chars.drop_first());
    }
}

/// Encodes characters as UTF-16 code units.
pub fn utf16_units(chars: &Vec<char>) -> (r: Vec<u16>)
    ensures
        r@ == spec_utf16_units(chars@),
{
    let n = chars.len();
    let mut r: Vec<u16> = Vec::new();
    proof {
        assert(chars@.take(0) =~= Seq::<char>::empty());
    }
    let mut i: usize = 0;
    while i < n
        invariant
            n == chars@.len(),
            i <= n,
            r@ == spec_utf16_units(chars@.take(i as int)),
            r@.len() <= 2 * i,
        decreases n - i,
    {
        let c = chars[i];
        let v = c as u32;
        proof {
            vstd::utf8::char_is_scalar(c);
            assert(v <= 0x10FFFF);
            lemma_utf16_units_snoc(chars@, i as int);
        }
        if v < 0x10000 {
            r.push(v as u16);
            proof {
                assert(r@ =~= spec_utf16_units(chars@.take(i + 1)));
            }
        } else {
            let d = v - 0x10000;
            r.push((0xD800 + d / 0x400) as u16);
            r.push((0xDC00 + d % 0x400) as u16);
            proof {
                assert(r@ =~= spec_utf16_units(chars@.take(i + 1)));
            }
        }
        i += 1;
    }
    proof {
        assert(chars@.take(n as int) =~= chars@);
    }
    r
}

/// Builds the file-drop clipboard payload referencing a single file, from
/// the characters of the file's path: the header, then the path encoded as
/// UTF-16 in little-endian bytes, then the path's terminator and the empty
/// unit that ends the list. Pasting this into a file manager materialises
/// the file as a drop. The path must not contain the NUL character, which
/// would end the list early.
pub fn set_clipboard_file(path: &Vec<char>) -> (r: Vec<u8>)
    requires
        path@.len() <= 0x1F_FFFF,
        forall|i: int| 0 <= i < path@.len() ==> path@[i] != 0 as char,
    ensures
        r@ == spec_dropfiles_header() + spec_utf16_le_bytes(spec_utf16_units(path@)) + seq![
            0u8,
            0u8,
            0u8,
            0u8,
        ],
{
    let units = utf16_units(path);
    proof {
        lemma_utf16_units_len(path@);
        lemma_utf16_units_nonzero(path@);
    }
    file_drop_payload(&units)
}

} // verus!
