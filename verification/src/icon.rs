//! Pictures for the user interface: an application's icon and a track's
//! cover, as text that a page can show.

use vstd::prelude::*;
use vstd::string::*;

verus! {

/// Width and height of an application icon, in pixels.
pub const ICON_SIZE: u32 = 32;

/// The most bytes a cover may have to be handed on.
pub const MAX_THUMBNAIL_BYTES: usize = 1024 * 1024;

/// What the `png` crate makes of an image of the given size with 8 bits for
/// each of red, green, blue and alpha: the bytes of the file, or `None`
/// where it refuses the image.
pub uninterp spec fn png_rgba8(width: u32, height: u32, pixels: Seq<u8>) -> Option<Seq<u8>>;

/// What the `base64` crate makes of bytes with its standard alphabet and padding.
pub uninterp spec fn base64_standard(bytes: Seq<u8>) -> Seq<char>;

/// `png::Encoder` with colour type `Rgba` and bit depth `Eight`, from
/// `Encoder::new` to `Writer::write_image_data`, into memory.
///
/// The result is a function of size and pixels alone. The encoder refuses
/// pixel data whose length is not four bytes for each pixel. Sizes are kept
/// small enough for the length of the data to be computed without overflow.
#[verifier::external_body]
fn encode_png_rgba8(width: u32, height: u32, pixels: &Vec<u8>) -> (file: Option<Vec<u8>>)
    requires
        width <= 0x4000,
        height <= 0x4000,
    ensures
        match file {
            Some(bytes) => png_rgba8(width, height, pixels@) == Some(bytes@),
            None => png_rgba8(width, height, pixels@) is None,
        },
        pixels@.len() != width * height * 4 ==> file is None,
{
    let mut file: Vec<u8> = Vec::new();
    let mut encoder = png::Encoder::new(&mut file, width, height);
    encoder.set_color(png::ColorType::Rgba);
    encoder.set_depth(png::BitDepth::Eight);
    let written = match encoder.write_header() {
        Ok(mut writer) => writer.write_image_data(pixels).is_ok(),
        Err(_) => false,
    };
    if written {
        Some(file)
    } else {
        None
    }
}

/// `base64::Engine::encode` of `base64::engine::general_purpose::STANDARD`.
///
/// The result is a function of the bytes alone. The call panics only where
/// the length of the result is not representable, which no slice reaches.
#[verifier::external_body]
fn encode_base64(bytes: &Vec<u8>) -> (text: String)
    ensures
        text@ == base64_standard(bytes@),
{
    base64::Engine::encode(&base64::engine::general_purpose::STANDARD, bytes)
}

/// The position that holds, after red and blue have changed places, what
/// position `i` held before: within each complete group of four bytes the
/// first and the third are exchanged.
pub open spec fn exchanged(i: int, len: int) -> int {
    if i >= len - len % 4 {
        i
    } else if i % 4 == 0 {
        i + 2
    } else if i % 4 == 2 {
        i - 2
    } else {
        i
    }
}

/// `pixels` with red and blue exchanged in every complete group of four bytes.
pub open spec fn swap_red_blue(pixels: Seq<u8>) -> Seq<u8> {
    Seq::new(pixels.len(), |i: int| pixels[exchanged(i, pixels.len() as int)])
}

/// Exchanges the first and third byte of every complete group of four:
/// blue, green, red, alpha becomes red, green, blue, alpha.
pub fn bgra_to_rgba(pixels: &mut Vec<u8>)
    ensures
        final(pixels)@ == swap_red_blue(old(pixels)@),
{
    let len = pixels.len();
    let whole: usize = len - len % 4;
    let mut i: usize = 0;
    while i < whole
        invariant
            i <= whole,
            i % 4 == 0,
            whole == len - len % 4,
            pixels@.len() == len,
            len == old(pixels)@.len(),
            forall|j: int| 0 <= j < i ==> pixels@[j] == old(pixels)@[exchanged(j, len as int)],
            forall|j: int| i <= j < len ==> pixels@[j] == old(pixels)@[j],
        decreases whole - i,
    {
        let blue = pixels[i];
        let red = pixels[i + 2];
        pixels.set(i, red);
        pixels.set(i + 2, blue);
        i = i + 4;
    }
    assert(pixels@ =~= swap_red_blue(old(pixels)@));
}

/// The text that shows a picture file inline.
pub open spec fn png_data_url(file: Seq<u8>) -> Seq<char> {
    "data:image/png;base64,"@ + base64_standard(file)
}

/// What a page is given for an encoded icon: the file as inline text, or
/// nothing where the icon could not be encoded.
pub fn icon_text(file: Option<Vec<u8>>) -> (text: Option<String>)
    ensures
        match file {
            Some(bytes) => text matches Some(t) && t@ == png_data_url(bytes@),
            None => text is None,
        },
{
    match file {
        Some(bytes) => {
            let mut text = String::from_str("data:image/png;base64,");
            let encoded = encode_base64(&bytes);
            text.append(encoded.as_str());
            Some(text)
        },
        None => None,
    }
}

/// Turns the pixels of an application icon, as the window system hands them
/// out (blue, green, red, alpha), into inline text for a page.
///
/// `None` where the encoder refuses the image, as it does for any number of
/// bytes other than that of a picture of [`ICON_SIZE`] by [`ICON_SIZE`].
pub fn get_process_icon(pixels: Vec<u8>) -> (text: Option<String>)
    ensures
        match png_rgba8(ICON_SIZE, ICON_SIZE, swap_red_blue(pixels@)) {
            Some(file) => text matches Some(t) && t@ == png_data_url(file),
            None => text is None,
        },
        pixels@.len() != ICON_SIZE * ICON_SIZE * 4 ==> text is None,
{
    let mut rgba = pixels;
    bgra_to_rgba(&mut rgba);
    icon_text(encode_png_rgba8(ICON_SIZE, ICON_SIZE, &rgba))
}

/// A track's cover as text, unless it is empty or larger than
/// [`MAX_THUMBNAIL_BYTES`].
pub fn get_thumbnail(bytes: &Vec<u8>) -> (text: Option<String>)
    ensures
        text is Some <==> 0 < bytes@.len() <= MAX_THUMBNAIL_BYTES,
        text matches Some(t) ==> t@ == base64_standard(bytes@),
{
    if bytes.len() == 0 || bytes.len() > MAX_THUMBNAIL_BYTES {
        None
    } else {
        Some(encode_base64(bytes))
    }
}

} // verus!
