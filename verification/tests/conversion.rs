use kroki::conversion::{check_raster_size, convert_svg, rasterise_svg};
use kroki::{DiagramError, OutputFormat};

const SIMPLE_SVG: &str = r#"<svg xmlns="http://www.w3.org/2000/svg" width="100" height="100">
        <rect width="100" height="100" fill="red"/>
    </svg>"#;

#[test]
fn convert_svg_to_svg_is_noop() {
    let result = convert_svg(SIMPLE_SVG.as_bytes(), &OutputFormat::Svg).unwrap();
    assert_eq!(result, SIMPLE_SVG.as_bytes());
}

#[test]
fn convert_svg_to_png_produces_valid_png() {
    let result = convert_svg(SIMPLE_SVG.as_bytes(), &OutputFormat::Png).unwrap();
    assert!(result.len() > 8, "PNG output should be non-trivial");
    assert_eq!(&result[0..4], &[0x89, b'P', b'N', b'G']);
}

#[test]
fn convert_svg_to_webp_produces_valid_webp() {
    let result = convert_svg(SIMPLE_SVG.as_bytes(), &OutputFormat::WebP).unwrap();
    assert!(result.len() > 12, "WebP output should be non-trivial");
    assert_eq!(&result[0..4], b"RIFF");
    assert_eq!(&result[8..12], b"WEBP");
}

#[test]
fn convert_svg_to_pdf_returns_unsupported() {
    let result = convert_svg(SIMPLE_SVG.as_bytes(), &OutputFormat::Pdf);
    assert!(result.is_err());
    let err_msg = result.unwrap_err().message();
    assert!(err_msg.contains("pdf"), "should mention PDF format: {err_msg}");
}

#[test]
fn convert_invalid_svg_returns_error() {
    let result = convert_svg(b"not an svg", &OutputFormat::Png);
    assert!(result.is_err());
}

#[test]
fn convert_rejects_oversized_svg() {
    let svg = r#"<svg xmlns="http://www.w3.org/2000/svg" width="10000" height="10000">
            <rect width="10000" height="10000" fill="blue"/>
        </svg>"#;
    let result = convert_svg(svg.as_bytes(), &OutputFormat::Png);
    assert!(result.is_err());
    let err_msg = result.unwrap_err().message();
    assert!(err_msg.contains("exceed maximum"), "should mention dimension limit: {err_msg}");
}

#[test]
fn pdf_error_names_format_and_converter() {
    match convert_svg(SIMPLE_SVG.as_bytes(), &OutputFormat::Pdf) {
        Err(DiagramError::UnsupportedFormat { format, provider }) => {
            assert_eq!(format, "pdf");
            assert_eq!(provider, "format-converter");
        }
        other => panic!("unexpected result: {other:?}"),
    }
}

#[test]
fn oversized_svg_message_is_exact() {
    let svg = r#"<svg xmlns="http://www.w3.org/2000/svg" width="9000" height="20"/>"#;
    match convert_svg(svg.as_bytes(), &OutputFormat::WebP) {
        Err(DiagramError::ProcessFailed(m)) => {
            assert_eq!(m, "SVG dimensions (9000x20) exceed maximum (8192x8192)")
        }
        other => panic!("unexpected result: {other:?}"),
    }
}

#[test]
fn fractional_size_is_rounded_up() {
    let svg = r#"<svg xmlns="http://www.w3.org/2000/svg" width="10.2" height="3.5"/>"#;
    let (pixels, w, h) = rasterise_svg(svg.as_bytes()).unwrap();
    assert_eq!((w, h), (11, 4));
    assert_eq!(pixels.len(), 4 * 11 * 4);
}

#[test]
fn non_utf8_svg_is_a_validation_error() {
    match convert_svg(&[0xff, 0xfe, 0x00], &OutputFormat::Png) {
        Err(DiagramError::ValidationFailed(m)) => {
            assert!(m.starts_with("SVG data is not valid UTF-8: "))
        }
        other => panic!("unexpected result: {other:?}"),
    }
}

#[test]
fn unparsable_svg_is_a_parse_error() {
    match convert_svg(b"not an svg", &OutputFormat::Png) {
        Err(DiagramError::ProcessFailed(m)) => assert!(m.starts_with("SVG parsing failed: ")),
        other => panic!("unexpected result: {other:?}"),
    }
}

#[test]
fn raster_size_limits() {
    assert!(check_raster_size(1, 1).is_ok());
    assert!(check_raster_size(8192, 8192).is_ok());
    match check_raster_size(0, 5) {
        Err(DiagramError::ProcessFailed(m)) => {
            assert_eq!(m, "SVG has zero dimensions, cannot rasterise")
        }
        other => panic!("unexpected result: {other:?}"),
    }
    match check_raster_size(8193, 1) {
        Err(DiagramError::ProcessFailed(m)) => {
            assert_eq!(m, "SVG dimensions (8193x1) exceed maximum (8192x8192)")
        }
        other => panic!("unexpected result: {other:?}"),
    }
}

#[test]
fn png_of_small_svg_decodes_as_png_chunks() {
    let result = convert_svg(SIMPLE_SVG.as_bytes(), &OutputFormat::Png).unwrap();
    assert_eq!(&result[0..8], &[137, 80, 78, 71, 13, 10, 26, 10]);
    assert_eq!(&result[12..16], b"IHDR");
    assert_eq!(&result[16..20], &100u32.to_be_bytes());
    assert_eq!(&result[20..24], &100u32.to_be_bytes());
}

#[test]
fn red_square_rasterises_to_red_pixels() {
    let (pixels, w, h) = rasterise_svg(SIMPLE_SVG.as_bytes()).unwrap();
    assert_eq!((w, h), (100, 100));
    assert!(pixels.chunks(4).all(|p| p == [255, 0, 0, 255]));
}
