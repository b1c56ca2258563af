//! Pictures: the screenshot, the background and the program's icon.

use vstd::prelude::*;
use vstd::string::*;

verus! {

/// The longest side that an icon may have.
pub const ICON_SIDE: u32 = 256;

/// A picture: four bytes for each pixel, row by row.
pub struct Raster {
    pub rgba: Vec<u8>,
    pub w: u32,
    pub h: u32,
}

impl Raster {
    /// There are as many pixels as the size says.
    pub open spec fn wf(self) -> bool {
        self.rgba@.len() == 4 * self.w as int * self.h as int
    }
}

/// Whether a buffer holds exactly the pixels of a size.
pub open spec fn holds_pixels(len: nat, w: u32, h: u32) -> bool {
    len == 4 * w as int * h as int
}

fn pixels_fit(len: usize, w: u32, h: u32) -> (r: bool)
    ensures
        r == holds_pixels(len as nat, w, h),
{
    assert(0 <= w as int * h as int <= 0xffff_ffff * 0xffff_ffff) by (nonlinear_arith)
        requires
            0 <= w as int <= 0xffff_ffff,
            0 <= h as int <= 0xffff_ffff,
    ;
    assert(4 * w as int * h as int == 4 * (w as int * h as int)) by (nonlinear_arith);
    let n: u128 = w as u128 * h as u128;
    len as u128 == 4 * n
}

/// What a decoder made of a file: four bytes for each pixel with the size, or a message.
pub open spec fn decoded_view(d: Result<(Vec<u8>, u32, u32), String>) -> Result<
    (Seq<u8>, u32, u32),
    Seq<char>,
> {
    match d {
        Ok(p) => Ok((p.0@, p.1, p.2)),
        Err(e) => Err(e@),
    }
}

/// Whether bytes begin as a JPEG file does.
pub open spec fn is_jpeg(bytes: Seq<u8>) -> bool {
    bytes.len() >= 3 && bytes[0] == 0xff && bytes[1] == 0xd8 && bytes[2] == 0xff
}

/// Whether two decodings agree in all but the values of the pixels: both fail with the same
/// message, or both give a picture of the same size with as many bytes.
pub open spec fn same_but_pixels(
    a: Result<(Seq<u8>, u32, u32), Seq<char>>,
    b: Result<(Seq<u8>, u32, u32), Seq<char>>,
) -> bool {
    match (a, b) {
        (Ok(p), Ok(q)) => p.1 == q.1 && p.2 == q.2 && p.0.len() == q.0.len(),
        (Err(e), Err(f)) => e == f,
        _ => false,
    }
}

/// What the `image` crate makes of a file. Of a JPEG file this is a picture that some processor
/// gives; others may give other pixels.
pub uninterp spec fn decoded_picture(bytes: Seq<u8>) -> Result<(Seq<u8>, u32, u32), Seq<char>>;

/// `image::load_from_memory`, then the pixels as RGBA of eight bits: a decoded picture with its
/// size, or the decoder's message. A picture has four bytes for each of its pixels. Success,
/// size and message follow from the bytes, and so do the pixels, except those of a JPEG file:
/// they are computed in one of several ways, as the processor allows, so nothing is said of
/// their values.
#[verifier::external_body]
fn decode_rgba(bytes: &[u8]) -> (r: Result<(Vec<u8>, u32, u32), String>)
    ensures
        same_but_pixels(decoded_view(r), decoded_picture(bytes@)),
        !is_jpeg(bytes@) ==> decoded_view(r) == decoded_picture(bytes@),
        r is Ok ==> holds_pixels(r->Ok_0.0@.len(), r->Ok_0.1, r->Ok_0.2),
{
    match image::load_from_memory(bytes) {
        Ok(img) => {
            let rgba = img.to_rgba8();
            let (w, h) = rgba.dimensions();
            Ok((rgba.into_raw(), w, h))
        },
        Err(e) => Err(e.to_string()),
    }
}

/// What the `image` crate makes of a picture that is scaled to fit into a square.
pub uninterp spec fn scaled_picture(rgba: Seq<u8>, w: u32, h: u32, side: u32) -> (
    Seq<u8>,
    u32,
    u32,
);

/// `image::DynamicImage::resize` with the triangle filter: the picture scaled to the largest
/// size that fits into a square, its proportions kept, with four bytes for each of its pixels.
/// How the filter mixes pixels is not spelled out here.
#[verifier::external_body]
fn scale_into(rgba: Vec<u8>, w: u32, h: u32, side: u32) -> (r: (Vec<u8>, u32, u32))
    requires
        holds_pixels(rgba@.len(), w, h),
        w > 0 || h > 0,
        side > 0,
    ensures
        (r.0@, r.1, r.2) == scaled_picture(rgba@, w, h, side),
        1 <= r.1 <= side,
        1 <= r.2 <= side,
        holds_pixels(r.0@.len(), r.1, r.2),
{
    let img = image::DynamicImage::ImageRgba8(image::RgbaImage::from_raw(w, h, rgba).unwrap());
    let small = img.resize(side, side, image::imageops::FilterType::Triangle).to_rgba8();
    let (nw, nh) = small.dimensions();
    (small.into_raw(), nw, nh)
}

/// A decoded picture, or its message between two texts. A buffer that does not fit its size
/// counts as a failure without a message.
pub open spec fn framed(
    decoded: Result<(Seq<u8>, u32, u32), Seq<char>>,
    before: Seq<char>,
    after: Seq<char>,
) -> Result<(Seq<u8>, u32, u32), Seq<char>> {
    match decoded {
        Ok(p) => if holds_pixels(p.0.len(), p.1, p.2) {
            Ok(p)
        } else {
            Err(before + after)
        },
        Err(e) => Err(before + e + after),
    }
}

pub open spec fn raster_view(r: Result<Raster, String>) -> Result<
    (Seq<u8>, u32, u32),
    Seq<char>,
> {
    match r {
        Ok(p) => Ok((p.rgba@, p.w, p.h)),
        Err(e) => Err(e@),
    }
}

/// A picture made of what a decoder returned: `before` and `after` go round its message.
pub fn raster_from(
    decoded: Result<(Vec<u8>, u32, u32), String>,
    before: &str,
    after: &str,
) -> (r: Result<Raster, String>)
    ensures
        raster_view(r) == framed(decoded_view(decoded), before@, after@),
        r is Ok ==> r->Ok_0.wf(),
{
    let mut msg = String::new();
    msg.append(before);
    match decoded {
        Ok(d) => {
            if pixels_fit(d.0.len(), d.1, d.2) {
                Ok(Raster { rgba: d.0, w: d.1, h: d.2 })
            } else {
                msg.append(after);
                assert(msg@ =~= before@ + after@);
                Err(msg)
            }
        },
        Err(e) => {
            msg.append(e.as_str());
            msg.append(after);
            assert(msg@ =~= before@ + e@ + after@);
            Err(msg)
        },
    }
}

/// The picture of a screenshot, or what to report.
pub fn read_screenshot(png: &[u8]) -> (r: Result<Raster, String>)
    ensures
        r is Ok ==> r->Ok_0.wf(),
        (r is Ok) == (decoded_picture(png@) is Ok),
        same_but_pixels(raster_view(r), framed(decoded_picture(png@), "解码截图失败: "@, ""@)),
        !is_jpeg(png@) ==> raster_view(r) == framed(
            decoded_picture(png@),
            "解码截图失败: "@,
            ""@,
        ),
{
    let decoded = decode_rgba(png);
    raster_from(decoded, "解码截图失败: ", "")
}

/// The picture of a background image, or what to report.
pub fn read_background(bytes: &[u8]) -> (r: Result<Raster, String>)
    ensures
        r is Ok ==> r->Ok_0.wf(),
        (r is Ok) == (decoded_picture(bytes@) is Ok),
        same_but_pixels(
            raster_view(r),
            framed(decoded_picture(bytes@), "背景图解码失败("@, "):仅支持 png / jpg"@),
        ),
        !is_jpeg(bytes@) ==> raster_view(r) == framed(
            decoded_picture(bytes@),
            "背景图解码失败("@,
            "):仅支持 png / jpg"@,
        ),
{
    let decoded = decode_rgba(bytes);
    raster_from(decoded, "背景图解码失败(", "):仅支持 png / jpg")
}

/// Whether a picture is too large for an icon.
pub open spec fn oversized(w: u32, h: u32) -> bool {
    w > ICON_SIDE || h > ICON_SIDE
}

/// The icon that a decoded picture makes: scaled down where it is too large.
pub open spec fn icon_of(decoded: Result<(Seq<u8>, u32, u32), Seq<char>>) -> Option<
    (Seq<u8>, u32, u32),
> {
    match decoded {
        Err(_) => None,
        Ok(p) => if !holds_pixels(p.0.len(), p.1, p.2) {
            None
        } else if oversized(p.1, p.2) {
            Some(scaled_picture(p.0, p.1, p.2, ICON_SIDE))
        } else {
            Some(p)
        },
    }
}

pub open spec fn icon_view(r: Option<Raster>) -> Option<(Seq<u8>, u32, u32)> {
    match r {
        Some(p) => Some((p.rgba@, p.w, p.h)),
        None => None,
    }
}

/// The program's icon: that of some picture of the file's size, and where the file is no JPEG
/// that of the file's own pixels. None where it cannot be decoded; the system then shows an icon of its
/// own.
pub fn app_icon(png: &[u8]) -> (r: Option<Raster>)
    ensures
        r is Some ==> r->0.wf() && !oversized(r->0.w, r->0.h),
        (r is Some) == (decoded_picture(png@) is Ok),
        r is Some ==> {
            let whole = decoded_picture(png@)->Ok_0;
            !oversized(whole.1, whole.2) ==> r->0.w == whole.1 && r->0.h == whole.2
        },
        r is Some ==> exists|px: Seq<u8>|
            icon_view(r) == #[trigger] icon_of(
                Ok((px, decoded_picture(png@)->Ok_0.1, decoded_picture(png@)->Ok_0.2)),
            ),
        !is_jpeg(png@) ==> icon_view(r) == icon_of(decoded_picture(png@)),
{
    let decoded = decode_rgba(png);
    let ghost seen = decoded_view(decoded);
    let r = icon_from(decoded);
    proof {
        if r is Some {
            let px = seen->Ok_0.0;
            assert(seen == Ok::<(Seq<u8>, u32, u32), Seq<char>>(
                (px, decoded_picture(png@)->Ok_0.1, decoded_picture(png@)->Ok_0.2),
            ));
        }
    }
    r
}

/// An icon made of what a decoder returned.
pub fn icon_from(decoded: Result<(Vec<u8>, u32, u32), String>) -> (r: Option<Raster>)
    ensures
        icon_view(r) == icon_of(decoded_view(decoded)),
        r is Some ==> r->0.wf() && !oversized(r->0.w, r->0.h),
{
    match decoded {
        Err(_) => None,
        Ok(d) => {
            if !pixels_fit(d.0.len(), d.1, d.2) {
                return None;
            }
            if d.1 > ICON_SIDE || d.2 > ICON_SIDE {
                let s = scale_into(d.0, d.1, d.2, ICON_SIDE);
                return Some(Raster { rgba: s.0, w: s.1, h: s.2 });
            }
            Some(Raster { rgba: d.0, w: d.1, h: d.2 })
        },
    }
}

/// A picture that was decoded is taken as it is, and a message that came instead is framed by the
/// two texts.
pub proof fn what_is_made_of_a_decoding(
    pixels: Seq<u8>,
    w: u32,
    h: u32,
    message: Seq<char>,
    before: Seq<char>,
    after: Seq<char>,
)
    requires
        pixels.len() == 4 * w as int * h as int,
    ensures
        framed(Ok((pixels, w, h)), before, after) == Ok::<(Seq<u8>, u32, u32), Seq<char>>(
            (pixels, w, h),
        ),
        framed(Err(message), before, after) is Err,
        before.is_prefix_of(framed(Err(message), before, after)->Err_0),
        framed(Err(message), before, after)->Err_0.skip(before.len() as int) == message + after,
{
    assert((before + message + after).skip(before.len() as int) =~= message + after);
}

/// A picture of at most 256 pixels a side is an icon as it is; a larger one is scaled to fit into
/// that square; what was not decoded is none.
pub proof fn what_becomes_an_icon(pixels: Seq<u8>, w: u32, h: u32, message: Seq<char>)
    requires
        pixels.len() == 4 * w as int * h as int,
    ensures
        w <= 256 && h <= 256 ==> icon_of(Ok((pixels, w, h))) == Some((pixels, w, h)),
        w > 256 || h > 256 ==> icon_of(Ok((pixels, w, h))) == Some(
            scaled_picture(pixels, w, h, 256),
        ),
        icon_of(Err(message)) is None,
{
}

} // verus!
