//! Normalization of clipboard bitmaps.
//!
//! The clipboard hands out a device-independent bitmap: the pixel data of a
//! BMP file without the 14-byte file-level header.  To make the buffer
//! decodable on its own, the missing header is synthesized: the pixel-data
//! offset is computed from the info-header size variant and the optional
//! palette, whose size depends on the bit depth.  The decoded image is then
//! re-encoded as PNG, a self-describing format.

use vstd::bytes::{
    spec_u16_from_le_bytes, spec_u32_from_le_bytes, spec_u32_to_le_bytes, u16_from_le_bytes,
    u32_from_le_bytes, u32_to_le_bytes,
};
use vstd::prelude::*;
use vstd::slice::slice_subrange;

verus! {

/// Why a buffer could not be normalized.
#[derive(Clone, Copy, PartialEq, Eq, Structural, Debug)]
pub enum DibError {
    /// Shorter than its own size field.
    TooShort,
    /// The info-header size is none of the supported variants.
    UnsupportedHeader,
    /// Shorter than the info header it announces.
    Truncated,
    /// The announced palette does not fit any supported bit depth.
    BadPalette,
    /// Too large for a BMP size field.
    TooLarge,
}

/// The buffer already carries a file-level header.
pub open spec fn is_bmp_file(b: Seq<u8>) -> bool {
    b.len() >= 2 && b[0] == 66 && b[1] == 77
}

/// The info-header size variants that can be normalized.
pub open spec fn supported_header(h: u32) -> bool {
    h == 40 || h == 108 || h == 124 || h == 12 || h == 64
}

/// The announced info-header size.
pub open spec fn dib_header_size(b: Seq<u8>) -> u32 {
    spec_u32_from_le_bytes(b.subrange(0, 4))
}

/// The bits per pixel, read from the variant-dependent position.
pub open spec fn dib_bit_count(b: Seq<u8>) -> u16 {
    if dib_header_size(b) == 12 {
        spec_u16_from_le_bytes(b.subrange(10, 12))
    } else {
        spec_u16_from_le_bytes(b.subrange(14, 16))
    }
}

/// The announced number of palette entries, for depths that carry a palette.
pub open spec fn dib_palette_entries(b: Seq<u8>) -> int {
    let h = dib_header_size(b);
    let bc = dib_bit_count(b);
    if bc > 8 {
        0
    } else if h == 12 {
        (1u32 << (bc as u32)) as int
    } else {
        let clr = spec_u32_from_le_bytes(b.subrange(32, 36));
        if clr == 0 {
            (1u32 << (bc as u32)) as int
        } else {
            clr as int
        }
    }
}

/// Bytes occupied by the palette: four per entry, except three in the
/// smallest header variant.
pub open spec fn dib_palette_bytes(b: Seq<u8>) -> int {
    if dib_header_size(b) == 12 {
        3 * dib_palette_entries(b)
    } else {
        4 * dib_palette_entries(b)
    }
}

/// Offset of the pixel data from the start of the synthesized file:
/// file-level header, info header, palette.
pub open spec fn dib_pixel_offset(b: Seq<u8>) -> int {
    14 + dib_header_size(b) + dib_palette_bytes(b)
}

/// The synthesized standalone bitmap: magic, total size, reserved bytes,
/// pixel-data offset, then the buffer unchanged.
pub open spec fn bmp_bytes(b: Seq<u8>) -> Seq<u8> {
    seq![66u8, 77u8] + spec_u32_to_le_bytes((b.len() + 14) as u32) + seq![0u8, 0u8, 0u8, 0u8]
        + spec_u32_to_le_bytes(dib_pixel_offset(b) as u32) + b
}

/// What normalization yields on every buffer.  A buffer that already carries
/// a file-level header passes through unchanged; otherwise the file-level
/// header is synthesized, and a buffer whose announced layout cannot be
/// trusted is rejected without being decoded.
pub open spec fn dib_to_bmp_spec(b: Seq<u8>) -> Result<Seq<u8>, DibError> {
    if is_bmp_file(b) {
        Ok(b)
    } else if b.len() < 4 {
        Err(DibError::TooShort)
    } else if !supported_header(dib_header_size(b)) {
        Err(DibError::UnsupportedHeader)
    } else if b.len() < dib_header_size(b) {
        Err(DibError::Truncated)
    } else if dib_palette_entries(b) > 256 {
        Err(DibError::BadPalette)
    } else if b.len() + 14 > u32::MAX {
        Err(DibError::TooLarge)
    } else {
        Ok(bmp_bytes(b))
    }
}

/// Synthesize a standalone bitmap from a device-independent bitmap buffer.
pub fn dib_to_bmp(buffer: &[u8]) -> (r: Result<Vec<u8>, DibError>)
    ensures
        match r {
            Ok(v) => dib_to_bmp_spec(buffer@) == Ok::<Seq<u8>, DibError>(v@),
            Err(e) => dib_to_bmp_spec(buffer@) == Err::<Seq<u8>, DibError>(e),
        },
{
    if buffer.len() >= 2 && buffer[0] == 66 && buffer[1] == 77 {
        let mut v: Vec<u8> = Vec::new();
        v.extend_from_slice(buffer);
        proof {
            assert(v@ =~= buffer@);
        }
        return Ok(v);
    }
    if buffer.len() < 4 {
        return Err(DibError::TooShort);
    }
    let head = slice_subrange(buffer, 0, 4);
    proof {
        assert(head@ =~= buffer@.subrange(0, 4));
    }
    let header_size = u32_from_le_bytes(head);
    if !(header_size == 40 || header_size == 108 || header_size == 124 || header_size == 12
        || header_size == 64) {
        return Err(DibError::UnsupportedHeader);
    }
    if buffer.len() < header_size as usize {
        return Err(DibError::Truncated);
    }
    let bit_count = if header_size == 12 {
        let bc = slice_subrange(buffer, 10, 12);
        proof {
            assert(bc@ =~= buffer@.subrange(10, 12));
        }
        u16_from_le_bytes(bc)
    } else {
        let bc = slice_subrange(buffer, 14, 16);
        proof {
            assert(bc@ =~= buffer@.subrange(14, 16));
        }
        u16_from_le_bytes(bc)
    };
    let entries: u32 = if bit_count > 8 {
        0
    } else if header_size == 12 {
        1u32 << (bit_count as u32)
    } else {
        let cl = slice_subrange(buffer, 32, 36);
        proof {
            assert(cl@ =~= buffer@.subrange(32, 36));
        }
        let clr = u32_from_le_bytes(cl);
        if clr == 0 {
            1u32 << (bit_count as u32)
        } else {
            clr
        }
    };
    proof {
        assert(entries as int == dib_palette_entries(buffer@));
    }
    if entries > 256 {
        return Err(DibError::BadPalette);
    }
    if buffer.len() > (u32::MAX - 14) as usize {
        return Err(DibError::TooLarge);
    }
    let palette_bytes: u32 = if header_size == 12 {
        3 * entries
    } else {
        4 * entries
    };
    let offset: u32 = 14 + header_size + palette_bytes;
    let total: u32 = (buffer.len() as u32) + 14;
    let mut v: Vec<u8> = Vec::new();
    v.push(66);
    v.push(77);
    let total_bytes = u32_to_le_bytes(total);
    v.append(&mut { total_bytes });
    v.push(0);
    v.push(0);
    v.push(0);
    v.push(0);
    let offset_bytes = u32_to_le_bytes(offset);
    v.append(&mut { offset_bytes });
    v.extend_from_slice(buffer);
    proof {
        assert(v@ =~= bmp_bytes(buffer@));
    }
    Ok(v)
}

/// What the PNG re-encoding of a BMP buffer holds; the encoding is a
/// function of the buffer bytes alone.
pub uninterp spec fn png_encoding(bmp: Seq<u8>) -> Option<Seq<u8>>;

/// Relies on `image::load_from_memory_with_format` and
/// `image::DynamicImage::write_to`: decodes a standalone BMP buffer and
/// re-encodes the image as PNG.
#[verifier::external_body]
fn bmp_to_png(bmp: &[u8]) -> (r: Option<Vec<u8>>)
    ensures
        match r {
            Some(p) => png_encoding(bmp@) == Some(p@),
            None => png_encoding(bmp@) is None,
        },
{
    match image::load_from_memory_with_format(bmp, image::ImageFormat::Bmp) {
        Ok(img) => {
            let mut cur = std::io::Cursor::new(Vec::new());
            match img.write_to(&mut cur, image::ImageFormat::Png) {
                Ok(()) => Some(cur.into_inner()),
                Err(_) => None,
            }
        },
        Err(_) => None,
    }
}

/// What normalizing one raw clipboard buffer yields: the PNG re-encoding of
/// the synthesized bitmap, or nothing for a buffer that is rejected or does
/// not decode.
pub open spec fn normalized_image(b: Seq<u8>) -> Option<Seq<u8>> {
    match dib_to_bmp_spec(b) {
        Ok(bmp) => png_encoding(bmp),
        Err(_) => None,
    }
}

/// Normalize one raw clipboard bitmap buffer into PNG bytes.
pub fn normalize_dib(buffer: &[u8]) -> (r: Option<Vec<u8>>)
    ensures
        match r {
            Some(p) => normalized_image(buffer@) == Some(p@),
            None => normalized_image(buffer@) is None,
        },
{
    match dib_to_bmp(buffer) {
        Ok(bmp) => bmp_to_png(bmp.as_slice()),
        Err(_) => None,
    }
}

} // verus!
