//! Avatars: where they are fetched from and what is kept of them.

use std::sync::Arc;
use vstd::prelude::*;

verus! {

/// A fetched avatar: the address it came from, and its picture as rows of
/// RGBA pixels, four bytes each. A record never changes once it is built.
pub struct AvatarData {
    url: String,
    width: u32,
    height: u32,
    pixels: Vec<u8>,
}

/// What an [`AvatarData`] holds.
pub struct AvatarView {
    pub url: Seq<char>,
    pub width: u32,
    pub height: u32,
    pub pixels: Seq<u8>,
}

impl AvatarView {
    /// The pixel buffer has exactly four bytes for each pixel.
    pub open spec fn well_formed(self) -> bool {
        self.pixels.len() == 4 * self.width * self.height
    }
}

impl View for AvatarData {
    type V = AvatarView;

    closed spec fn view(&self) -> AvatarView {
        AvatarView { url: self.url@, width: self.width, height: self.height, pixels: self.pixels@ }
    }
}

/// `text` with every occurrence of `from` replaced by `to`, occurrences
/// being found from the left and never overlapping.
pub open spec fn replace_all(text: Seq<char>, from: Seq<char>, to: Seq<char>) -> Seq<char>
    recommends
        from.len() > 0,
    decreases text.len(),
{
    if from.len() == 0 || text.len() < from.len() {
        text
    } else if text.subrange(0, from.len() as int) == from {
        to + replace_all(text.subrange(from.len() as int, text.len() as int), from, to)
    } else {
        seq![text[0]] + replace_all(text.drop_first(), from, to)
    }
}

/// The address of the thumbnail of an avatar: the address of the avatar
/// with the largest size, 1024, replaced by the smallest, 32.
pub open spec fn thumbnail_url(avatar_url: Seq<char>) -> Seq<char> {
    replace_all(avatar_url, "size=1024"@, "size=32"@)
}

/// The thumbnail address of an avatar that may be missing.
pub open spec fn thumbnail_of(avatar_url: Option<Seq<char>>) -> Option<Seq<char>> {
    match avatar_url {
        Some(url) => Some(thumbnail_url(url)),
        None => None,
    }
}

/// The answer of a server to a fetch: the status of the response, and its
/// body.
pub struct AvatarResponse {
    pub status: u16,
    pub body: Vec<u8>,
}

/// What an [`AvatarResponse`] holds.
pub struct ResponseView {
    pub status: u16,
    pub body: Seq<u8>,
}

impl View for AvatarResponse {
    type V = ResponseView;

    open spec fn view(&self) -> ResponseView {
        ResponseView { status: self.status, body: self.body@ }
    }
}

/// What the outcome of a fetch holds. `None` stands for a fetch that
/// brought no response.
pub open spec fn response_view(fetched: Option<&AvatarResponse>) -> Option<ResponseView> {
    match fetched {
        Some(response) => Some(response@),
        None => None,
    }
}

/// Whether a status reports success: the statuses from 200 to 299.
pub open spec fn is_success(status: u16) -> bool {
    200 <= status <= 299
}

/// The body that a fetch has brought: that of a response with a status of
/// success. A fetch without a response has brought none, and neither has
/// one whose response reports anything but success, whatever its body.
pub open spec fn fetched_body(fetched: Option<ResponseView>) -> Option<Seq<u8>> {
    match fetched {
        Some(response) => if is_success(response.status) {
            Some(response.body)
        } else {
            None
        },
        None => None,
    }
}

/// The picture that the bytes of an image file hold, as width, height and
/// RGBA pixels, or `None` where the bytes are no image that can be read.
pub uninterp spec fn decoded_rgba8(bytes: Seq<u8>) -> Option<(u32, u32, Seq<u8>)>;

/// The record that comes of fetching `url`. There is a record where the
/// fetch has brought a body, and the body is an image whose pixel buffer
/// has the size that its width and height call for.
pub open spec fn remote_avatar(url: Seq<char>, fetched: Option<ResponseView>) -> Option<
    AvatarView,
> {
    match fetched_body(fetched) {
        None => None,
        Some(bytes) => match decoded_rgba8(bytes) {
            None => None,
            Some((width, height, pixels)) => {
                let record = AvatarView { url, width, height, pixels };
                if record.well_formed() {
                    Some(record)
                } else {
                    None
                }
            },
        },
    }
}

/// What an optional shared record holds.
pub open spec fn avatar_view(avatar: Option<Arc<AvatarData>>) -> Option<AvatarView> {
    match avatar {
        Some(record) => Some(record@),
        None => None,
    }
}

/// `str::replace` with a string as pattern: every match of the pattern,
/// found from the left and not overlapping an earlier one, is replaced.
#[verifier::external_body]
fn replace(text: &str, from: &str, to: &str) -> (replaced: String)
    requires
        from@.len() > 0,
    ensures
        replaced@ == replace_all(text@, from@, to@),
{
    text.replace(from, to)
}

/// `image::guess_format`, then `image::load_from_memory_with_format` with
/// the format found, then `DynamicImage::into_rgba8`: the image that the
/// bytes hold, converted to RGBA with eight bits a channel. The format is
/// told by the first bytes against a fixed table, and the decoder is the
/// built-in one for that format, so that nothing but the argument is read
/// and the result is named by [`decoded_rgba8`].
#[verifier::external_body]
fn decode_rgba8(bytes: &[u8]) -> (decoded: Option<(u32, u32, Vec<u8>)>)
    ensures
        match decoded {
            Some((width, height, pixels)) => decoded_rgba8(bytes@) == Some((width, height, pixels@)),
            None => decoded_rgba8(bytes@) is None,
        },
{
    let format = match image::guess_format(bytes) {
        Ok(format) => format,
        Err(_) => return None,
    };
    match image::load_from_memory_with_format(bytes, format) {
        Ok(picture) => {
            let rgba = picture.into_rgba8();
            Some((rgba.width(), rgba.height(), rgba.into_vec()))
        },
        Err(_) => None,
    }
}

impl AvatarData {
    #[verifier::type_invariant]
    spec fn well_formed(&self) -> bool {
        self@.well_formed()
    }

    /// Builds a record, provided that `pixels` has four bytes for each of
    /// the `width * height` pixels.
    pub fn new(url: String, width: u32, height: u32, pixels: Vec<u8>) -> (built: Option<AvatarData>)
        ensures
            match built {
                Some(record) => record@ == (AvatarView { url: url@, width, height, pixels: pixels@ })
                    && record@.well_formed(),
                None => !(AvatarView { url: url@, width, height, pixels: pixels@ }).well_formed(),
            },
    {
        assert(width * height <= 0xffff_ffff * 0xffff_ffff) by (nonlinear_arith)
            requires
                width <= 0xffff_ffff,
                height <= 0xffff_ffff,
        ;
        assert(4 * width * height == 4 * (width * height)) by (nonlinear_arith);
        let area: u128 = (width as u128) * (height as u128);
        let wanted: u128 = 4u128 * area;
        if pixels.len() as u128 == wanted {
            Some(AvatarData { url, width, height, pixels })
        } else {
            None
        }
    }

    /// The address the avatar was fetched from.
    pub fn url(&self) -> (url: &str)
        ensures
            url@ == self@.url,
    {
        self.url.as_str()
    }

    /// Whether the avatar was fetched from the address `url`.
    pub fn fetched_from(&self, url: &String) -> (same: bool)
        ensures
            same == (self@.url == url@),
    {
        self.url == *url
    }

    /// The width of the picture, in pixels.
    pub fn width(&self) -> (width: u32)
        ensures
            width == self@.width,
    {
        self.width
    }

    /// The height of the picture, in pixels.
    pub fn height(&self) -> (height: u32)
        ensures
            height == self@.height,
    {
        self.height
    }

    /// The pixels, row by row, four bytes each.
    pub fn pixels(&self) -> (pixels: &Vec<u8>)
        ensures
            pixels@ == self@.pixels,
            pixels@.len() == 4 * self@.width * self@.height,
    {
        proof {
            use_type_invariant(self);
        }
        &self.pixels
    }
}

/// The address to fetch an avatar from, given the address under which the
/// platform offers it: that of the smallest thumbnail. A user without an
/// avatar has none.
pub fn get_avatar_url(avatar_url: Option<&str>) -> (thumbnail: Option<String>)
    ensures
        match thumbnail {
            Some(url) => avatar_url is Some && url@ == thumbnail_url(avatar_url->0@),
            None => avatar_url is None,
        },
{
    match avatar_url {
        Some(url) => {
            proof {
                reveal_strlit("size=1024");
            }
            Some(replace(url, "size=1024", "size=32"))
        },
        None => None,
    }
}

/// The body of a response that reports success, and `None` for any other
/// response and for a fetch that brought none.
pub fn successful_body(fetched: Option<&AvatarResponse>) -> (body: Option<&[u8]>)
    ensures
        match body {
            Some(bytes) => fetched_body(response_view(fetched)) == Some(bytes@),
            None => fetched_body(response_view(fetched)) is None,
        },
{
    match fetched {
        Some(response) => if 200 <= response.status && response.status <= 299 {
            Some(response.body.as_slice())
        } else {
            None
        },
        None => None,
    }
}

/// Turns the outcome of a fetch of `avatar_url` into a record. `fetched` is
/// the response, or `None` where the fetch brought none. There is no record
/// for a response that reports anything but success, nor for a body that
/// is no readable image.
pub fn get_remote_avatar(avatar_url: String, fetched: Option<&AvatarResponse>) -> (avatar: Option<
    Arc<AvatarData>,
>)
    ensures
        avatar_view(avatar) == remote_avatar(avatar_url@, response_view(fetched)),
        fetched is None ==> avatar is None,
        fetched matches Some(response) && !is_success(response.status) ==> avatar is None,
        avatar matches Some(record) ==> record@.url == avatar_url@ && record@.well_formed(),
{
    let bytes = match successful_body(fetched) {
        Some(bytes) => bytes,
        None => return None,
    };
    match decode_rgba8(bytes) {
        Some((width, height, pixels)) => match AvatarData::new(avatar_url, width, height, pixels) {
            Some(record) => Some(Arc::new(record)),
            None => None,
        },
        None => None,
    }
}

} // verus!
