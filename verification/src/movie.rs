//! Movie genres as the API names them.

use vstd::prelude::*;

verus! {

#[allow(non_camel_case_types)]
#[derive(Debug, Clone, Copy, PartialEq)]
pub enum MovieGenre {
    action,
    adventure,
    animation,
    comedy,
    crime,
    documentary,
    drama,
    erotica,
    Family,
    fantasy,
    foreign,
    history,
    horror,
    music,
    mystery,
    romance,
    science_fiction,
    thriller,
    tv_movie,
    war,
    western,
}

} // verus!
