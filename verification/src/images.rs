//! Image URL builders.
//!
//! When getting images, Simkl asks that your app cache them forever: an
//! image with the same URL never changes, so never download one twice.

use vstd::prelude::*;

verus! {

pub const IMAGE_SERVER: &'static str = "https://wsrv.nl/?url=https://simkl.in/";

pub enum Type {
    Poster,
    Fanart,
    Episode,
    Avatars,
}

pub enum PosterSize {
    W600x338,
    M340x,
    Ca190x279,
    C170x250,
    Cm84x124,
    S40x57,
}

pub enum EpisodeSize {
    W600x338,
    C210x118,
    M112x63,
}

pub enum FanartSize {
    Darker,
    Medium1920x1080,
    Mobile950x540,
    W600x338,
    S48x27,
}

pub enum AvatarSize {
    /// 24x24
    Icon,
    /// 100x100
    Small,
    /// 200x200
    Normal,
    /// 256x256
    Big,
    /// 512
    VeryBig,
}

/// The filename extension appended to every image URL.
pub open spec fn extension_of(webp: bool) -> Seq<char> {
    if webp {
        ".webp"@
    } else {
        ".jpg"@
    }
}

fn set_extension(url: String, webp: bool) -> (r: String)
    ensures
        r@ == url@ + extension_of(webp),
{
    if webp {
        url.concat(".webp")
    } else {
        url.concat(".jpg")
    }
}

/// The size tag of a poster URL.
pub open spec fn poster_tag(size: PosterSize) -> Seq<char> {
    match size {
        PosterSize::W600x338 => "_w"@,
        PosterSize::M340x => "_m"@,
        PosterSize::Ca190x279 => "_ca"@,
        PosterSize::C170x250 => "_c"@,
        PosterSize::Cm84x124 => "_cm"@,
        PosterSize::S40x57 => "_s"@,
    }
}

pub fn get_poster_url(prefix: String, image_url: String, size: PosterSize, webp: bool) -> (r:
    String)
    ensures
        r@ == IMAGE_SERVER@ + "posters/"@ + prefix@ + "/"@ + image_url@ + poster_tag(size)
            + extension_of(webp),
{
    let mut result = String::from_str(IMAGE_SERVER);
    result.append("posters/");
    result.append(prefix.as_str());
    result.append("/");
    result.append(image_url.as_str());
    match size {
        PosterSize::W600x338 => result.append("_w"),
        PosterSize::M340x => result.append("_m"),
        PosterSize::Ca190x279 => result.append("_ca"),
        PosterSize::C170x250 => result.append("_c"),
        PosterSize::Cm84x124 => result.append("_cm"),
        PosterSize::S40x57 => result.append("_s"),
    }
    set_extension(result, webp)
}

/// The size tag of a fanart URL.
pub open spec fn fanart_tag(size: FanartSize) -> Seq<char> {
    match size {
        FanartSize::Darker => "_d"@,
        FanartSize::Medium1920x1080 => "_medium"@,
        FanartSize::Mobile950x540 => "_mobile"@,
        FanartSize::W600x338 => "_w"@,
        FanartSize::S48x27 => "_s48"@,
    }
}

pub fn get_fanart_url(prefix: String, image_url: String, size: FanartSize, webp: bool) -> (r:
    String)
    ensures
        r@ == IMAGE_SERVER@ + "fanart/"@ + prefix@ + "/"@ + image_url@ + fanart_tag(size)
            + extension_of(webp),
{
    let mut result = String::from_str(IMAGE_SERVER);
    result.append("fanart/");
    result.append(prefix.as_str());
    result.append("/");
    result.append(image_url.as_str());
    match size {
        FanartSize::Darker => result.append("_d"),
        FanartSize::Medium1920x1080 => result.append("_medium"),
        FanartSize::Mobile950x540 => result.append("_mobile"),
        FanartSize::W600x338 => result.append("_w"),
        FanartSize::S48x27 => result.append("_s48"),
    }
    set_extension(result, webp)
}

/// The size tag of an episode image URL.
pub open spec fn episode_tag(size: EpisodeSize) -> Seq<char> {
    match size {
        EpisodeSize::W600x338 => "_w"@,
        EpisodeSize::C210x118 => "_c"@,
        EpisodeSize::M112x63 => "_s"@,
    }
}

pub fn get_episodes_url(prefix: String, image_url: String, size: EpisodeSize, webp: bool) -> (r:
    String)
    ensures
        r@ == IMAGE_SERVER@ + "episodes/"@ + prefix@ + "/"@ + image_url@ + episode_tag(size)
            + extension_of(webp),
{
    let mut result = String::from_str(IMAGE_SERVER);
    result.append("episodes/");
    result.append(prefix.as_str());
    result.append("/");
    result.append(image_url.as_str());
    match size {
        EpisodeSize::W600x338 => result.append("_w"),
        EpisodeSize::C210x118 => result.append("_c"),
        EpisodeSize::M112x63 => result.append("_s"),
    }
    set_extension(result, webp)
}

/// The size tag of an avatar URL; the 200x200 size is the unadorned
/// default.
pub open spec fn avatar_tag(size: AvatarSize) -> Seq<char> {
    match size {
        AvatarSize::Icon => "_24"@,
        AvatarSize::Small => "_100"@,
        AvatarSize::Normal => Seq::empty(),
        AvatarSize::Big => "_200"@,
        AvatarSize::VeryBig => "_256"@,
    }
}

pub fn get_avatar_url(prefix: String, image_url: String, size: AvatarSize, webp: bool) -> (r:
    String)
    ensures
        r@ == IMAGE_SERVER@ + "episodes/"@ + prefix@ + "/"@ + image_url@ + avatar_tag(size)
            + extension_of(webp),
{
    let mut result = String::from_str(IMAGE_SERVER);
    result.append("episodes/");
    result.append(prefix.as_str());
    result.append("/");
    result.append(image_url.as_str());
    match size {
        AvatarSize::Icon => result.append("_24"),
        AvatarSize::Small => result.append("_100"),
        AvatarSize::Normal => (),
        AvatarSize::Big => result.append("_200"),
        AvatarSize::VeryBig => result.append("_256"),
    }
    let r = set_extension(result, webp);
    proof {
        assert(r@ =~= IMAGE_SERVER@ + "episodes/"@ + prefix@ + "/"@ + image_url@ + avatar_tag(
            size,
        ) + extension_of(webp));
    }
    r
}

} // verus!
