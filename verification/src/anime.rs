//! Anime genres and types as the API names them.

use vstd::prelude::*;

verus! {

#[allow(non_camel_case_types)]
#[derive(Debug, Clone, Copy, PartialEq)]
pub enum AnimeGenre {
    action,
    adventure,
    cars,
    comedy,
    dementia,
    demons,
    drama,
    ecchi,
    fantasy,
    game,
    harem,
    historical,
    horror,
    josei,
    kids,
    magic,
    martial_arts,
    mecha,
    military,
    music,
    mystery,
    parody,
    police,
    psychological,
    romance,
    samurai,
    school,
    sci_fi,
    seinen,
    shoujo,
    shoujo_ai,
    shounen,
    shounen_ai,
    slice_of_life,
    space,
    sports,
    super_power,
    supernatural,
    thriller,
    vampire,
    yaoi,
    yuri,
}

#[derive(Debug, Copy, Clone, PartialEq)]
pub enum AnimeType {
    Tv,
    Special,
    Ova,
    Movie,
    /// `"music video"` on the wire
    MusicVideo,
    Ona,
}

} // verus!
