//! Conversion of rendered SVG into the requested output format.
//!
//! Providers produce SVG; PNG and WebP are made by parsing the SVG with usvg,
//! rasterising it with resvg and encoding the pixels with the image crate.
//! PDF is not supported.
use crate::error::{DiagramError, DiagramResult};
use crate::ports::OutputFormat;
use crate::text::{decimal, decimal_text, join2, owned};
use vstd::prelude::*;
use vstd::string::*;
use vstd::utf8::*;

verus! {

/// The largest width or height, in pixels, that is rasterised.
pub const MAX_RASTER_SIDE: u32 = 8192;

/// The whole-pixel size (width and height rounded up) of the SVG document
/// `text` as usvg parses it with default options; `None` where usvg refuses
/// the document.
pub uninterp spec fn svg_pixel_size(text: Seq<char>) -> Option<(u32, u32)>;

/// The RGBA pixels, `width` x `height`, that resvg renders for the SVG
/// document `text` as usvg parses it with default options.
pub uninterp spec fn svg_raster(text: Seq<char>, width: u32, height: u32) -> Seq<u8>;

/// Whether the text holds `href` anywhere. Only through an `href` (of an
/// `<image>`) does usvg's default resolver read files from disk, so a text
/// without one renders to pixels that depend on the text alone.
pub open spec fn names_href(text: Seq<char>) -> bool {
    exists|i: int| 0 <= i && i + 4 <= text.len() && #[trigger] text.subrange(i, i + 4) == "href"@
}

/// What the image crate's PNG encoder makes of `width` x `height` RGBA
/// pixels; `None` where it reports an error.
pub uninterp spec fn png_encoding(pixels: Seq<u8>, width: u32, height: u32) -> Option<Seq<u8>>;

/// What the image crate's lossless WebP encoder makes of `width` x `height`
/// RGBA pixels; `None` where it reports an error.
pub uninterp spec fn webp_encoding(pixels: Seq<u8>, width: u32, height: u32) -> Option<Seq<u8>>;

/// The eight bytes every PNG file starts with.
pub open spec fn png_signature() -> Seq<u8> {
    seq![137u8, 80u8, 78u8, 71u8, 13u8, 10u8, 26u8, 10u8]
}

/// Whether `b` is a RIFF container of WebP data: "RIFF", a length, "WEBP".
pub open spec fn webp_container(b: Seq<u8>) -> bool {
    &&& b.len() >= 12
    &&& b.subrange(0, 4) == seq![82u8, 73u8, 70u8, 70u8]
    &&& b.subrange(8, 12) == seq![87u8, 69u8, 66u8, 80u8]
}

/// Whether `s` begins with `p`.
pub open spec fn starts_with(s: Seq<char>, p: Seq<char>) -> bool {
    p.len() <= s.len() && s.subrange(0, p.len() as int) == p
}

/// The pixel size the SVG bytes ask for: `None` where they are not UTF-8 or
/// usvg refuses them.
pub open spec fn svg_bytes_size(svg: Seq<u8>) -> Option<(u32, u32)> {
    if valid_utf8(svg) {
        svg_pixel_size(decode_utf8(svg))
    } else {
        None
    }
}

/// The message for an SVG larger than the raster limit.
pub open spec fn oversize_message(width: u32, height: u32) -> Seq<char> {
    "SVG dimensions ("@ + decimal(width as nat) + "x"@ + decimal(height as nat)
        + ") exceed maximum (8192x8192)"@
}

/// Whether `e` is the error for an SVG whose size `width` x `height` cannot be
/// rasterised, if it cannot.
pub open spec fn size_refusal(width: u32, height: u32, e: DiagramError) -> bool {
    if width == 0 || height == 0 {
        e matches DiagramError::ProcessFailed(m) && m@ == "SVG has zero dimensions, cannot rasterise"@
    } else {
        e matches DiagramError::ProcessFailed(m) && m@ == oversize_message(width, height)
    }
}

/// Whether a size can be rasterised.
pub open spec fn rasterisable(width: u32, height: u32) -> bool {
    0 < width <= MAX_RASTER_SIDE && 0 < height <= MAX_RASTER_SIDE
}

/// Whether `r` is what rasterising the SVG bytes `svg` may give: the
/// errors for bytes that are not UTF-8, for a document usvg refuses and for
/// a size out of range, each exactly where it applies; otherwise the
/// pixels, four bytes per pixel, with the size; for a document that names no
/// `href`, the pixels resvg renders for it.
pub open spec fn raster_outcome(svg: Seq<u8>, r: DiagramResult<(Vec<u8>, u32, u32)>) -> bool {
    if !valid_utf8(svg) {
        r matches Err(DiagramError::ValidationFailed(m)) && starts_with(
            m@,
            "SVG data is not valid UTF-8: "@,
        )
    } else if svg_pixel_size(decode_utf8(svg)) is None {
        r matches Err(DiagramError::ProcessFailed(m)) && starts_with(m@, "SVG parsing failed: "@)
    } else {
        let (w, h) = svg_pixel_size(decode_utf8(svg))->0;
        if !rasterisable(w, h) {
            r matches Err(e) && size_refusal(w, h, e)
        } else {
            r matches Ok((px, rw, rh)) && rw == w && rh == h && px@.len() == 4 * w * h && (
            !names_href(decode_utf8(svg)) ==> px@ == svg_raster(decode_utf8(svg), w, h))
        }
    }
}

/// Whether a size is present and can be rasterised.
pub open spec fn size_fits(size: Option<(u32, u32)>) -> bool {
    match size {
        Some((w, h)) => rasterisable(w, h),
        None => false,
    }
}

/// What the chosen encoder (PNG when `png`, else lossless WebP) makes of
/// `w` x `h` RGBA pixels; `None` where it refuses them.
pub open spec fn encoder_output(png: bool, px: Seq<u8>, w: u32, h: u32) -> Option<Seq<u8>> {
    if png {
        png_encoding(px, w, h)
    } else {
        webp_encoding(px, w, h)
    }
}

/// Whether `r` is what the chosen encoder gives for the pixels `px`: its
/// bytes (a PNG file or a RIFF/WEBP container) where it takes them, and the
/// encoding error exactly where it refuses them.
pub open spec fn encoded_pixels(png: bool, px: Seq<u8>, w: u32, h: u32, r: DiagramResult<Vec<u8>>) -> bool {
    match r {
        Ok(b) => encoder_output(png, px, w, h) == Some(b@) && (if png {
            b@.len() >= 8 && b@.subrange(0, 8) == png_signature()
        } else {
            webp_container(b@)
        }),
        Err(DiagramError::ProcessFailed(m)) => encoder_output(png, px, w, h) is None
            && starts_with(
            m@,
            if png {
                "PNG encoding failed: "@
            } else {
                "WebP encoding failed: "@
            },
        ),
        _ => false,
    }
}

/// Whether `r` is what encoding the SVG bytes `svg` as PNG (`png` true) or
/// WebP may give: the rasterising errors where they apply; else, for the
/// `w` x `h` RGBA pixels the SVG rasterises to (those resvg renders for the
/// text, where it names no `href`), the encoder's bytes where it takes them
/// and its error exactly where it refuses them.
pub open spec fn encoded_outcome(svg: Seq<u8>, png: bool, r: DiagramResult<Vec<u8>>) -> bool {
    if size_fits(svg_bytes_size(svg)) {
        let (w, h) = svg_bytes_size(svg)->0;
        if !names_href(decode_utf8(svg)) {
            encoded_pixels(png, svg_raster(decode_utf8(svg), w, h), w, h, r)
        } else {
            exists|px: Seq<u8>|
                #![trigger encoder_output(png, px, w, h)]
                px.len() == 4 * w * h && encoded_pixels(png, px, w, h, r)
        }
    } else {
        r matches Err(e) && raster_outcome(svg, Err(e))
    }
}

/// Calls `std::str::from_utf8`: `Ok` exactly for valid UTF-8, with the text
/// the bytes encode. Nothing is stated of the error's text.
#[verifier::external_body]
fn utf8_str(bytes: &[u8]) -> (r: Result<&str, String>)
    ensures
        r is Ok <==> valid_utf8(bytes@),
        r matches Ok(s) ==> s@ == decode_utf8(bytes@),
{
    std::str::from_utf8(bytes).map_err(|err| err.to_string())
}

/// Calls `usvg::Tree::from_str` with default options and reads the tree's
/// size, rounded up to whole pixels; the size is named by `svg_pixel_size`.
/// Nothing is stated of the error's text.
#[verifier::external_body]
fn parse_svg_size(text: &str) -> (r: Result<(u32, u32), String>)
    ensures
        r is Ok <==> svg_pixel_size(text@) is Some,
        r matches Ok((w, h)) ==> svg_pixel_size(text@) == Some((w, h)),
{
    let opts = resvg::usvg::Options::default();
    match resvg::usvg::Tree::from_str(text, &opts) {
        Ok(tree) => {
            let size = tree.size();
            Ok((size.width().ceil() as u32, size.height().ceil() as u32))
        },
        Err(err) => Err(err.to_string()),
    }
}

/// Parses the document with `usvg::Tree::from_str` (default options),
/// allocates a `width` x `height` tiny-skia pixmap, renders the tree into
/// it with `resvg::render` and hands out its RGBA bytes. A document whose
/// size usvg gives parses again; for sides within the raster limit tiny-skia
/// always allocates, four bytes per pixel. The pixels are named by
/// `svg_raster` where the document names no `href`: only then are they a
/// function of the text, since the default resolver reads `href` files
/// from disk.
#[verifier::external_body]
fn render_svg_text(text: &str, width: u32, height: u32) -> (r: Option<Vec<u8>>)
    requires
        rasterisable(width, height),
        svg_pixel_size(text@) == Some((width, height)),
    ensures
        r is Some,
        r matches Some(px) ==> px@.len() == 4 * width * height,
        !names_href(text@) ==> (r matches Some(px) ==> px@ == svg_raster(text@, width, height)),
{
    let opts = resvg::usvg::Options::default();
    let tree = resvg::usvg::Tree::from_str(text, &opts).ok()?;
    let mut pixmap = resvg::tiny_skia::Pixmap::new(width, height)?;
    resvg::render(&tree, resvg::tiny_skia::Transform::default(), &mut pixmap.as_mut());
    Some(pixmap.data().to_vec())
}

/// Calls the image crate's `PngEncoder::write_image` on RGBA pixels; the
/// bytes are named by `png_encoding` and start with the PNG signature.
/// Nothing is stated of the error's text.
#[verifier::external_body]
fn encode_png(pixels: &[u8], width: u32, height: u32) -> (r: Result<Vec<u8>, String>)
    requires
        pixels@.len() == 4 * width * height,
    ensures
        r is Ok <==> png_encoding(pixels@, width, height) is Some,
        r matches Ok(b) ==> png_encoding(pixels@, width, height) == Some(b@),
        r matches Ok(b) ==> b@.len() >= 8 && b@.subrange(0, 8) == png_signature(),
{
    let mut output = Vec::new();
    let encoder = image::codecs::png::PngEncoder::new(&mut output);
    image::ImageEncoder::write_image(encoder, pixels, width, height, image::ExtendedColorType::Rgba8)
        .map_err(|err| err.to_string())?;
    Ok(output)
}

/// Calls the image crate's lossless `WebPEncoder::write_image` on RGBA
/// pixels; the bytes are named by `webp_encoding` and form a RIFF/WEBP
/// container. Nothing is stated of the error's text.
#[verifier::external_body]
fn encode_webp(pixels: &[u8], width: u32, height: u32) -> (r: Result<Vec<u8>, String>)
    requires
        pixels@.len() == 4 * width * height,
    ensures
        r is Ok <==> webp_encoding(pixels@, width, height) is Some,
        r matches Ok(b) ==> webp_encoding(pixels@, width, height) == Some(b@),
        r matches Ok(b) ==> webp_container(b@),
{
    let mut output = Vec::new();
    let encoder = image::codecs::webp::WebPEncoder::new_lossless(&mut output);
    image::ImageEncoder::write_image(encoder, pixels, width, height, image::ExtendedColorType::Rgba8)
        .map_err(|err| err.to_string())?;
    Ok(output)
}

/// Refuses a size that cannot be rasterised: zero in either side, or a side
/// above the raster limit.
pub fn check_raster_size(width: u32, height: u32) -> (r: DiagramResult<()>)
    ensures
        rasterisable(width, height) ==> r is Ok,
        !rasterisable(width, height) ==> (r matches Err(e) && size_refusal(width, height, e)),
{
    if width == 0 || height == 0 {
        return Err(DiagramError::ProcessFailed(owned("SVG has zero dimensions, cannot rasterise")));
    }
    if width > MAX_RASTER_SIDE || height > MAX_RASTER_SIDE {
        let mut m = owned("SVG dimensions (");
        let w = decimal_text(width as u64);
        m.append(w.as_str());
        m.append("x");
        let h = decimal_text(height as u64);
        m.append(h.as_str());
        m.append(") exceed maximum (8192x8192)");
        return Err(DiagramError::ProcessFailed(m));
    }
    Ok(())
}

proof fn lemma_prefix_join(p: Seq<char>, rest: Seq<char>)
    ensures
        starts_with(p + rest, p),
{
    assert((p + rest).subrange(0, p.len() as int) =~= p);
}

/// Parses and rasterises SVG bytes, returning RGBA pixels with their size.
pub fn rasterise_svg(svg_data: &[u8]) -> (r: DiagramResult<(Vec<u8>, u32, u32)>)
    ensures
        raster_outcome(svg_data@, r),
{
    let text = match utf8_str(svg_data) {
        Ok(t) => t,
        Err(detail) => {
            let m = join2("SVG data is not valid UTF-8: ", detail.as_str());
            proof {
                lemma_prefix_join("SVG data is not valid UTF-8: "@, detail@);
            }
            return Err(DiagramError::ValidationFailed(m));
        },
    };
    let (width, height) = match parse_svg_size(text) {
        Ok(parsed) => parsed,
        Err(detail) => {
            let m = join2("SVG parsing failed: ", detail.as_str());
            proof {
                lemma_prefix_join("SVG parsing failed: "@, detail@);
            }
            return Err(DiagramError::ProcessFailed(m));
        },
    };
    match check_raster_size(width, height) {
        Ok(()) => {},
        Err(e) => {
            return Err(e);
        },
    }
    match render_svg_text(text, width, height) {
        Some(pixels) => Ok((pixels, width, height)),
        None => {
            let mut m = owned("failed to allocate pixmap (");
            let w = decimal_text(width as u64);
            m.append(w.as_str());
            m.append("x");
            let h = decimal_text(height as u64);
            m.append(h.as_str());
            m.append(")");
            Err(DiagramError::ProcessFailed(m))
        },
    }
}

/// Encodes the rasterised SVG with the PNG encoder (`png` true) or the
/// lossless WebP encoder.
fn encode_raster(svg_data: &[u8], png: bool) -> (r: DiagramResult<Vec<u8>>)
    ensures
        encoded_outcome(svg_data@, png, r),
{
    let rastered = rasterise_svg(svg_data);
    let (pixels, width, height) = match rastered {
        Ok(parts) => parts,
        Err(e) => {
            return Err(e);
        },
    };
    if pixels.len() as u64 != 4 * (width as u64) * (height as u64) {
        return Err(
            DiagramError::ProcessFailed(owned("failed to create image buffer from pixel data")),
        );
    }
    let encoded = if png {
        encode_png(pixels.as_slice(), width, height)
    } else {
        encode_webp(pixels.as_slice(), width, height)
    };
    match encoded {
        Ok(bytes) => {
            let r: DiagramResult<Vec<u8>> = Ok(bytes);
            proof {
                assert(encoded_pixels(png, pixels@, width, height, r));
                assert(encoder_output(png, pixels@, width, height) is Some);
            }
            r
        },
        Err(detail) => {
            let prefix = if png {
                "PNG encoding failed: "
            } else {
                "WebP encoding failed: "
            };
            let m = join2(prefix, detail.as_str());
            proof {
                lemma_prefix_join(prefix@, detail@);
            }
            let r: DiagramResult<Vec<u8>> = Err(DiagramError::ProcessFailed(m));
            proof {
                assert(encoded_pixels(png, pixels@, width, height, r));
                assert(encoder_output(png, pixels@, width, height) is None);
            }
            r
        },
    }
}

/// Converts SVG bytes to the requested output format: SVG is handed back
/// unchanged, PNG and WebP are rasterised and encoded, PDF is refused.
pub fn convert_svg(svg_data: &[u8], target: &OutputFormat) -> (r: DiagramResult<Vec<u8>>)
    ensures
        *target == OutputFormat::Svg ==> (r matches Ok(v) && v@ == svg_data@),
        *target == OutputFormat::Png ==> encoded_outcome(svg_data@, true, r),
        *target == OutputFormat::WebP ==> encoded_outcome(svg_data@, false, r),
        *target == OutputFormat::Pdf ==> (r matches Err(
            DiagramError::UnsupportedFormat { format, provider },
        ) && format@ == "pdf"@ && provider@ == "format-converter"@),
{
    match target {
        OutputFormat::Svg => Ok(vstd::slice::slice_to_vec(svg_data)),
        OutputFormat::Png => encode_raster(svg_data, true),
        OutputFormat::WebP => encode_raster(svg_data, false),
        OutputFormat::Pdf => Err(
            DiagramError::UnsupportedFormat {
                format: owned("pdf"),
                provider: owned("format-converter"),
            },
        ),
    }
}

} // verus!
