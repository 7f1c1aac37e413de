//! QR codes, drawn with block characters.

use qrcode::render::unicode::Dense1x2;
use vstd::prelude::*;

verus! {

/// What the `qrcode` crate makes of a text: the drawing of its code, or the
/// words of the error.
pub uninterp spec fn drawing(text: Seq<char>) -> Result<Seq<char>, Seq<char>>;

/// `qrcode::QrCode::new` on the bytes of a text, rendered by its
/// `Dense1x2` renderer with a quiet zone, dark for dark and light for light.
/// Which texts fit into a code, how it is drawn, and what is said of those
/// that do not fit, depends on the text alone; how a drawing looks is not
/// stated.
#[verifier::external_body]
pub(crate) fn draw(source: &str) -> (r: Result<String, String>)
    ensures
        match r {
            Ok(image) => drawing(source@) == Ok::<_, Seq<char>>(image@),
            Err(e) => drawing(source@) == Err::<Seq<char>, _>(e@),
        },
{
    match qrcode::QrCode::new(source.as_bytes()) {
        Ok(code) => Ok(
            code.render::<Dense1x2>().quiet_zone(true).dark_color(Dense1x2::Dark).light_color(
                Dense1x2::Light,
            ).build(),
        ),
        Err(e) => Err(e.to_string()),
    }
}

} // verus!
