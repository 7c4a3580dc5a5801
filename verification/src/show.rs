//! Show status and TV genres as the API names them.

use vstd::prelude::*;

verus! {

#[derive(Debug, Clone)]
pub enum ShowStatus {
    Returning,
    Continuing,
    Ended,
    Canceled,
    Hiatus,
}

/// The lowercase name the API uses for each status.
pub open spec fn show_status_name(s: ShowStatus) -> Seq<char> {
    match s {
        ShowStatus::Returning => "returning"@,
        ShowStatus::Continuing => "continuing"@,
        ShowStatus::Ended => "ended"@,
        ShowStatus::Canceled => "canceled"@,
        ShowStatus::Hiatus => "hiatus"@,
    }
}

impl ShowStatus {
    pub fn as_str(&self) -> (r: &'static str)
        ensures
            r@ == show_status_name(*self),
    {
        match self {
            ShowStatus::Returning => "returning",
            ShowStatus::Continuing => "continuing",
            ShowStatus::Ended => "ended",
            ShowStatus::Canceled => "canceled",
            ShowStatus::Hiatus => "hiatus",
        }
    }
}

#[allow(non_camel_case_types)]
#[derive(Debug, Clone, Copy, PartialEq)]
pub enum TvGenre {
    action,
    adventure,
    animation,
    awards_show,
    children,
    comedy,
    crime,
    documentary,
    drama,
    erotica,
    family,
    fantasy,
    food,
    game_show,
    history,
    home_and_garden,
    horror,
    indie,
    korean_drama,
    martial_arts,
    mini_series,
    musical,
    mystery,
    news,
    podcast,
    reality,
    romance,
    science_fiction,
    soap,
    special_interest,
    sport,
    suspense,
    talk_show,
    thriller,
    travel,
    war,
    western,
}

} // verus!
