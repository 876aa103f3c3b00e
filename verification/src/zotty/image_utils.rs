//! The image and font files that the cards are drawn with.

use vstd::prelude::*;

use crate::ranks::colour::{pad_discriminator, pad_discriminator_text};
use crate::text::nat_digits;

verus! {

/// The background images of the cards.
pub enum BackgroundImage {
    Rank,
    Leaderboard,
}

/// The weights of the card font.
pub enum FontWeight {
    Light,
    Regular,
}

/// The file holding a card's background image.
pub fn background_image_path(bg_image: &BackgroundImage) -> (path: &'static str)
    ensures
        path@ == match bg_image {
            BackgroundImage::Rank => "rank.png"@,
            BackgroundImage::Leaderboard => "leaderboard.png"@,
        },
{
    match bg_image {
        BackgroundImage::Rank => "rank.png",
        BackgroundImage::Leaderboard => "leaderboard.png",
    }
}

/// The file holding the card font in a weight.
pub fn typeface_path(fontweight: &FontWeight) -> (path: &'static str)
    ensures
        path@ == match fontweight {
            FontWeight::Light => "font-light.otf"@,
            FontWeight::Regular => "font.otf"@,
        },
{
    match fontweight {
        FontWeight::Light => "font-light.otf",
        FontWeight::Regular => "font.otf",
    }
}

/// The discriminator as Discord shows it after the `#`: its decimal digits,
/// padded with leading zeros to four.
pub fn format_descriminator(discriminator: u16) -> (s: String)
    ensures
        s@ == pad_discriminator(nat_digits(discriminator as nat)),
        s@ == pad_discriminator_text(nat_digits(discriminator as nat)),
{
    crate::ranks::colour::format_descriminator(discriminator)
}

/// Pads a discriminator's text with leading zeros to four bytes (a text of
/// one to three bytes gets zeros in front; any other text is left as it is).
pub fn pad_descriminator(text: &str) -> (s: String)
    ensures
        s@ == pad_discriminator_text(text@),
{
    crate::ranks::colour::pad_descriminator(text)
}

} // verus!
