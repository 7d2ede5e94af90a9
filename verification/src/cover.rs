use vstd::prelude::*;

verus! {

/// What `image::load_from_memory` followed by `to_rgba8` gives for some bytes: the pixels as
/// red, green, blue and alpha bytes, row by row, with the width and the height; `None` where
/// the bytes do not decode as an image.
pub uninterp spec fn decoded_rgba(bytes: Seq<u8>) -> Option<(Seq<u8>, u32, u32)>;

/// Decodes an image with `image::load_from_memory`, converts it with `to_rgba8` and takes its
/// pixels with `into_raw` and its size with `dimensions`. Trusted: the result is
/// `decoded_rgba` of the bytes, and the pixel buffer holds exactly four bytes for each of the
/// width times height pixels. The `image` source shows that length on every path: a decoder's
/// buffer is allocated at `total_bytes`, width times height times the bytes of a pixel, which no
/// decoder redefines (`decoder_to_vec`, `decoder_to_image`); an RGBA8 image is then cloned as
/// it is, and any other is cast into a vector of the pixel count times four channels
/// (`cast_in_color_space`, `create_output`).
#[verifier::external_body]
fn decode_rgba(bytes: &[u8]) -> (r: Option<(Vec<u8>, u32, u32)>)
    ensures
        match r {
            Some(t) => decoded_rgba(bytes@) == Some((t.0@, t.1, t.2)) && t.0@.len() == 4 * t.1
                * t.2,
            None => decoded_rgba(bytes@) is None,
        },
{
    match image::load_from_memory(bytes) {
        Ok(img) => {
            let rgba = img.to_rgba8();
            let (w, h) = rgba.dimensions();
            Some((rgba.into_raw(), w, h))
        },
        Err(_) => None,
    }
}

/// A downloaded cover as RGBA pixels with its width and height, or `None` where the bytes are
/// not an image.
pub fn decode_cover(bytes: &[u8]) -> (r: Option<(Vec<u8>, [usize; 2])>)
    ensures
        match r {
            Some(c) => {
                &&& decoded_rgba(bytes@) matches Some(d)
                &&& c.0@ == d.0
                &&& c.1@ == seq![d.1 as usize, d.2 as usize]
                &&& c.0@.len() == 4 * c.1[0] * c.1[1]
            },
            None => decoded_rgba(bytes@) is None,
        },
{
    match decode_rgba(bytes) {
        Some((pixels, w, h)) => {
            let size = [w as usize, h as usize];
            assert(size@ =~= seq![w as usize, h as usize]);
            Some((pixels, size))
        },
        None => None,
    }
}

} // verus!
