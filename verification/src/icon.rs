//! Turning the pixels of a shell icon into a PNG: alpha from the AND mask for
//! icons without an alpha channel, BGRA to RGBA, then PNG encoding.
use vstd::prelude::*;

verus! {

/// The PNG file that the `png` crate writes for an 8-bit RGBA image of `width` x `height`
/// pixels with the pixel bytes `data` (default compression and filtering), or `None` when
/// the encoder refuses the image.
pub uninterp spec fn png_rgba8(width: u32, height: u32, data: Seq<u8>) -> Option<Seq<u8>>;

/// The `png` crate's encoding error.
#[verifier::external_type_specification]
#[verifier::external_body]
pub struct ExEncodingError(png::EncodingError);

/// Encodes an 8-bit RGBA image with `png::Encoder` (colour type RGBA, bit depth eight),
/// writing the header and the image data into a fresh buffer; the file is complete once the
/// writer is dropped. The result is `png_rgba8(width, height, data@)`. The encoder refuses a
/// zero width or height (`write_header`) and a buffer whose length is not
/// `width * 4 * height` (`write_image_data`), and nothing else: writing into a `Vec` cannot
/// fail, and the compressed data goes out in chunks short enough for their length field.
/// It computes the buffer length in `usize`, hence the bound.
#[verifier::external_body]
fn encode_png_rgba8(width: u32, height: u32, data: &[u8]) -> (r: Result<Vec<u8>, png::EncodingError>)
    requires
        width as int * 4 * height as int <= usize::MAX as int,
    ensures
        r is Ok <==> png_rgba8(width, height, data@) is Some,
        r matches Ok(v) ==> png_rgba8(width, height, data@) == Some(v@),
        width == 0 || height == 0 || data@.len() != width as int * 4 * height as int ==> r is Err,
        width > 0 && height > 0 && data@.len() == width as int * 4 * height as int ==> r is Ok,
{
    let mut out = Vec::new();
    {
        let mut enc = png::Encoder::new(&mut out, width, height);
        enc.set_color(png::ColorType::Rgba);
        enc.set_depth(png::BitDepth::Eight);
        let mut writer = enc.write_header()?;
        writer.write_image_data(data)?;
    }
    Ok(out)
}

/// The message of a `png` encoding error (its `Display` text). Nothing is stated of the text.
#[verifier::external_body]
fn encoding_error_text(e: &png::EncodingError) -> String {
    e.to_string()
}

/// Why an icon could not be turned into a PNG.
#[derive(Debug)]
pub enum IconError {
    /// The shell has no icon for the file.
    NoIcon,
    /// The icon's bitmaps could not be obtained (the system's message).
    IconInfo(String),
    /// The colour bitmap could not be described.
    BitmapInfo,
    /// No pixel line could be read from the colour bitmap.
    PixelRead,
    /// The PNG encoder refused the image (its message).
    Encoding(String),
}

impl IconError {
    /// The text the user sees for this error.
    pub fn message(&self) -> (s: String)
        ensures
            s@ == match self {
                IconError::NoIcon => "Aucune icône trouvée pour ce fichier"@,
                IconError::IconInfo(m) => m@,
                IconError::BitmapInfo => "GetObjectW a échoué"@,
                IconError::PixelRead => "GetDIBits a échoué"@,
                IconError::Encoding(m) => m@,
            },
    {
        match self {
            IconError::NoIcon => String::from_str("Aucune icône trouvée pour ce fichier"),
            IconError::IconInfo(m) => m.clone(),
            IconError::BitmapInfo => String::from_str("GetObjectW a échoué"),
            IconError::PixelRead => String::from_str("GetDIBits a échoué"),
            IconError::Encoding(m) => m.clone(),
        }
    }
}

/// The larger of `v` and one.
pub open spec fn at_least_one(v: i32) -> int {
    if v > 1 {
        v as int
    } else {
        1
    }
}

/// The size of the icon bitmap to read, from the size the bitmap reports (each side at least
/// one pixel), with the length of its 32-bit pixel buffer.
pub fn icon_dims(bm_width: i32, bm_height: i32) -> (r: (u32, u32, usize))
    requires
        at_least_one(bm_width) * at_least_one(bm_height) <= i32::MAX,
        at_least_one(bm_width) * at_least_one(bm_height) * 4 <= usize::MAX,
    ensures
        r.0 == at_least_one(bm_width),
        r.1 == at_least_one(bm_height),
        r.2 == r.0 as int * r.1 as int * 4,
{
    let w: u32 = if bm_width > 1 { bm_width as u32 } else { 1 };
    let h: u32 = if bm_height > 1 { bm_height as u32 } else { 1 };
    let ghost prod = at_least_one(bm_width) * at_least_one(bm_height);
    assert(w as int * h as int == prod);
    assert(w as int * h as int * 4 <= usize::MAX);
    let len = (w as usize) * (h as usize) * 4;
    (w, h, len)
}

/// The pixel buffer (four bytes per pixel, alpha last) has a pixel with a non-zero alpha.
pub open spec fn alpha_present(color: Seq<u8>) -> bool {
    exists|i: int| 0 <= i && 4 * i + 3 < color.len() && #[trigger] color[4 * i + 3] != 0
}

/// The pixel buffer with each pixel's alpha taken from the AND mask: transparent where the
/// mask pixel's first byte is set, opaque elsewhere.
pub open spec fn alpha_from_mask(color: Seq<u8>, mask: Seq<u8>) -> Seq<u8> {
    Seq::new(
        color.len(),
        |j: int|
            if j % 4 == 3 {
                if mask[j - 3] != 0 {
                    0u8
                } else {
                    255u8
                }
            } else {
                color[j]
            },
    )
}

/// The pixel buffer with the first and third byte of every pixel exchanged (BGRA <-> RGBA).
pub open spec fn swap_red_blue(c: Seq<u8>) -> Seq<u8> {
    Seq::new(
        c.len(),
        |j: int|
            if j % 4 == 0 {
                c[j + 2]
            } else if j % 4 == 2 {
                c[j - 2]
            } else {
                c[j]
            },
    )
}

proof fn lemma_pixel_offsets(i: int)
    requires
        0 <= i,
    ensures
        (4 * i) % 4 == 0,
        (4 * i + 1) % 4 == 1,
        (4 * i + 2) % 4 == 2,
        (4 * i + 3) % 4 == 3,
{
    assert((4 * i) % 4 == 0) by (nonlinear_arith);
    assert((4 * i + 1) % 4 == 1) by (nonlinear_arith);
    assert((4 * i + 2) % 4 == 2) by (nonlinear_arith);
    assert((4 * i + 3) % 4 == 3) by (nonlinear_arith);
}

/// Whether any pixel of the buffer has a non-zero alpha byte. Icons without one carry their
/// transparency in the AND mask instead, which must then be read.
pub fn has_alpha(color: &Vec<u8>) -> (b: bool)
    ensures
        b == alpha_present(color@),
{
    let n = color.len();
    let px = n / 4;
    assert(4 * px <= n) by (nonlinear_arith)
        requires
            px == n / 4,
    ;
    let mut i: usize = 0;
    while i < px
        invariant
            n == color@.len(),
            px == color@.len() / 4,
            4 * px <= color@.len(),
            i <= px,
            forall|k: int| 0 <= k < i ==> #[trigger] color@[4 * k + 3] == 0,
        decreases px - i,
    {
        if color[4 * i + 3] != 0 {
            return true;
        }
        i = i + 1;
    }
    proof {
        assert forall|k: int| 0 <= k && 4 * k + 3 < color@.len() implies #[trigger] color@[4 * k
            + 3] == 0 by {
            assert(k < px);
        }
    }
    false
}

/// Sets every pixel's alpha from the AND mask (see `alpha_from_mask`).
pub fn apply_mask_alpha(color: &mut Vec<u8>, mask: &Vec<u8>)
    requires
        old(color)@.len() % 4 == 0,
        mask@.len() >= old(color)@.len(),
    ensures
        final(color)@ == alpha_from_mask(old(color)@, mask@),
{
    let ghost target = alpha_from_mask(old(color)@, mask@);
    let n = color.len();
    let px = n / 4;
    assert(4 * px == n) by (nonlinear_arith)
        requires
            px == n / 4,
            n % 4 == 0,
    ;
    let mut i: usize = 0;
    while i < px
        invariant
            n == color@.len(),
            n == old(color)@.len(),
            n % 4 == 0,
            px == n / 4,
            4 * px == n,
            mask@.len() >= n,
            i <= px,
            target == alpha_from_mask(old(color)@, mask@),
            forall|j: int| 0 <= j < 4 * i ==> #[trigger] color@[j] == target[j],
            forall|j: int| 4 * i <= j < n ==> #[trigger] color@[j] == old(color)@[j],
        decreases px - i,
    {
        let a: u8 = if mask[4 * i] != 0 { 0 } else { 255 };
        color.set(4 * i + 3, a);
        proof {
            lemma_pixel_offsets(i as int);
            assert forall|j: int| 0 <= j < 4 * (i + 1) implies #[trigger] color@[j] == target[j] by {
                if j >= 4 * i {
                    assert(j == 4 * i || j == 4 * i + 1 || j == 4 * i + 2 || j == 4 * i + 3);
                }
            }
        }
        i = i + 1;
    }
    proof {
        assert(color@ =~= target);
    }
}

/// Exchanges the first and third byte of every pixel: Windows hands out BGRA, PNG wants RGBA.
pub fn bgra_to_rgba(color: &mut Vec<u8>)
    requires
        old(color)@.len() % 4 == 0,
    ensures
        final(color)@ == swap_red_blue(old(color)@),
{
    let ghost target = swap_red_blue(old(color)@);
    let n = color.len();
    let px = n / 4;
    assert(4 * px == n) by (nonlinear_arith)
        requires
            px == n / 4,
            n % 4 == 0,
    ;
    let mut i: usize = 0;
    while i < px
        invariant
            n == color@.len(),
            n == old(color)@.len(),
            n % 4 == 0,
            px == n / 4,
            4 * px == n,
            i <= px,
            target == swap_red_blue(old(color)@),
            forall|j: int| 0 <= j < 4 * i ==> #[trigger] color@[j] == target[j],
            forall|j: int| 4 * i <= j < n ==> #[trigger] color@[j] == old(color)@[j],
        decreases px - i,
    {
        let b = color[4 * i];
        let r = color[4 * i + 2];
        color.set(4 * i, r);
        color.set(4 * i + 2, b);
        proof {
            lemma_pixel_offsets(i as int);
            assert forall|j: int| 0 <= j < 4 * (i + 1) implies #[trigger] color@[j] == target[j] by {
                if j >= 4 * i {
                    assert(j == 4 * i || j == 4 * i + 1 || j == 4 * i + 2 || j == 4 * i + 3);
                }
            }
        }
        i = i + 1;
    }
    proof {
        assert(color@ =~= target);
    }
}

/// The pixels as they go into the PNG: alpha from the mask when the icon has no alpha
/// channel and the mask was read, then red and blue exchanged.
pub open spec fn icon_rgba(color: Seq<u8>, mask: Option<Seq<u8>>) -> Seq<u8> {
    let shaded = match mask {
        Some(m) => if !alpha_present(color) {
            alpha_from_mask(color, m)
        } else {
            color
        },
        None => color,
    };
    swap_red_blue(shaded)
}

/// The mask an optional byte buffer stands for.
pub open spec fn mask_view(mask: Option<Vec<u8>>) -> Option<Seq<u8>> {
    match mask {
        Some(m) => Some(m@),
        None => None,
    }
}

/// Finishes an icon once its colour bitmap (`lines` pixel lines read, pixels in BGRA) and,
/// for an icon without alpha, its AND mask were read: a read that gave no line is an error;
/// otherwise the pixels become RGBA (see `icon_rgba`) and are encoded as PNG.
pub fn finish_icon(width: u32, height: u32, color: Vec<u8>, mask: Option<Vec<u8>>, lines: i32) -> (r:
    Result<Vec<u8>, IconError>)
    requires
        color@.len() == width as int * height as int * 4,
        width as int * 4 * height as int <= usize::MAX,
        mask matches Some(m) ==> m@.len() == color@.len(),
    ensures
        lines == 0 ==> r matches Err(IconError::PixelRead),
        lines != 0 ==> (r is Ok <==> png_rgba8(width, height, icon_rgba(color@, mask_view(mask))) is Some),
        lines != 0 ==> (r matches Ok(v) ==> png_rgba8(width, height, icon_rgba(color@, mask_view(mask)))
            == Some(v@)),
        lines != 0 ==> (r matches Err(e) ==> e is Encoding),
        lines != 0 && width > 0 && height > 0 ==> r is Ok,
{
    assert(color@.len() % 4 == 0) by {
        assert(color@.len() == (width as int * height as int) * 4);
    }
    let mut pixels = color;
    let ghost original = pixels@;
    match &mask {
        Some(m) => {
            if !has_alpha(&pixels) {
                apply_mask_alpha(&mut pixels, m);
            }
        },
        None => {},
    }
    if lines == 0 {
        return Err(IconError::PixelRead);
    }
    assert(pixels@.len() == original.len());
    bgra_to_rgba(&mut pixels);
    assert(pixels@ == icon_rgba(original, mask_view(mask)));
    assert(width as int * height as int * 4 == width as int * 4 * height as int) by (nonlinear_arith);
    match encode_png_rgba8(width, height, pixels.as_slice()) {
        Ok(png) => Ok(png),
        Err(e) => Err(IconError::Encoding(encoding_error_text(&e))),
    }
}

/// Exchanging red and blue twice gives the pixels back: the conversion between BGRA and
/// RGBA is its own inverse.
pub proof fn law_swap_red_blue_involutive(c: Seq<u8>)
    requires
        c.len() % 4 == 0,
    ensures
        swap_red_blue(swap_red_blue(c)) == c,
{
    let once = swap_red_blue(c);
    let twice = swap_red_blue(once);
    assert forall|j: int| 0 <= j < c.len() implies #[trigger] twice[j] == c[j] by {
        if j % 4 == 0 {
            assert(once[j + 2] == c[j]);
        } else if j % 4 == 2 {
            assert(once[j - 2] == c[j]);
        }
    }
    assert(twice =~= c);
}

/// After the mask is applied every pixel is either fully transparent or fully opaque, and
/// the colour bytes are untouched.
pub proof fn law_mask_alpha_is_binary(color: Seq<u8>, mask: Seq<u8>)
    requires
        mask.len() >= color.len(),
    ensures
        forall|j: int|
            0 <= j < color.len() && j % 4 == 3 ==> #[trigger] alpha_from_mask(color, mask)[j] == 0
                || alpha_from_mask(color, mask)[j] == 255,
        forall|j: int|
            0 <= j < color.len() && j % 4 != 3 ==> #[trigger] alpha_from_mask(color, mask)[j]
                == color[j],
{
}

} // verus!

verus! {

/// Every icon leaves as RGBA: in each pixel of what is encoded, the first and third bytes are
/// the colour bitmap's third and first, the second byte is the bitmap's, and the alpha byte is
/// the bitmap's own unless no pixel of the bitmap has alpha and the mask was read, in which
/// case it is 0 where the mask pixel is set and 255 elsewhere. This holds with and without a
/// mask.
pub proof fn law_icon_pixels_leave_as_rgba(color: Seq<u8>, mask: Option<Seq<u8>>, p: int)
    requires
        color.len() % 4 == 0,
        0 <= p,
        4 * p + 3 < color.len(),
        mask matches Some(m) ==> m.len() >= color.len(),
    ensures
        icon_rgba(color, mask).len() == color.len(),
        icon_rgba(color, mask)[4 * p] == color[4 * p + 2],
        icon_rgba(color, mask)[4 * p + 1] == color[4 * p + 1],
        icon_rgba(color, mask)[4 * p + 2] == color[4 * p],
        icon_rgba(color, mask)[4 * p + 3] == match mask {
            Some(m) => if exists|q: int| 0 <= q && 4 * q + 3 < color.len() && #[trigger] color[4 * q + 3] != 0 {
                color[4 * p + 3]
            } else if m[4 * p] != 0 {
                0u8
            } else {
                255u8
            },
            None => color[4 * p + 3],
        },
{
    lemma_pixel_offsets(p);
    let shaded = match mask {
        Some(m) => if !alpha_present(color) {
            alpha_from_mask(color, m)
        } else {
            color
        },
        None => color,
    };
    assert(shaded.len() == color.len());
    assert(shaded[4 * p] == color[4 * p]);
    assert(shaded[4 * p + 1] == color[4 * p + 1]);
    assert(shaded[4 * p + 2] == color[4 * p + 2]);
    assert(icon_rgba(color, mask) == swap_red_blue(shaded));
    assert(swap_red_blue(shaded)[4 * p] == shaded[4 * p + 2]);
    assert(swap_red_blue(shaded)[4 * p + 2] == shaded[4 * p]);
    assert(swap_red_blue(shaded)[4 * p + 3] == shaded[4 * p + 3]);
}

} // verus!
