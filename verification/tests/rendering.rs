use rawbit::metadata::ImageMetadata;
use rawbit::metadata::MetadataKind;
use rawbit::parse::FilenameFormat;

fn empty_metadata() -> ImageMetadata {
    ImageMetadata {
        make: String::new(),
        model: String::new(),
        iso: None,
        shutter_speed: None,
        lens_make: None,
        lens_model: None,
        focal_length: None,
        date_time_original: None,
    }
}

fn sample_metadata() -> ImageMetadata {
    ImageMetadata {
        make: "ACME".to_string(),
        model: "Shooter 9000".to_string(),
        iso: Some(800),
        shutter_speed: Some("1/250".to_string()),
        lens_make: Some("Lensmith".to_string()),
        lens_model: Some("50mm f1.8".to_string()),
        focal_length: Some("50/1".to_string()),
        date_time_original: Some("2024:01:15 10:30:00".to_string()),
    }
}

#[test]
fn renders_all_absent_fields_as_empty_contributions() {
    let fmt = FilenameFormat::parse("%Y-{camera.iso}x").unwrap();
    let rendered = fmt.render_filename("IMG_0001", &empty_metadata());
    assert_eq!(rendered, "-xIMG_0001");
}

#[test]
fn renders_datetime_directives_from_capture_date() {
    let fmt = FilenameFormat::parse("%Y-%m-%d_{camera.make}").unwrap();
    let rendered = fmt.render_filename("IMG_0001", &sample_metadata());
    assert_eq!(rendered, "2024-01-15_ACMEIMG_0001");
}

#[test]
fn renders_unparsable_capture_date_as_empty() {
    let mut md = sample_metadata();
    md.date_time_original = Some("not a date".to_string());
    let fmt = FilenameFormat::parse("%Y_{camera.model}").unwrap();
    let rendered = fmt.render_filename("IMG_0001", &md);
    assert_eq!(rendered, "_Shooter 9000IMG_0001");
}

#[test]
fn renders_iso_as_decimal_text() {
    let fmt = FilenameFormat::parse("{camera.iso}").unwrap();
    let rendered = fmt.render_filename("stem", &sample_metadata());
    assert_eq!(rendered, "800stem");
}

#[test]
fn renders_shutter_speed_with_slash_made_safe() {
    let fmt = FilenameFormat::parse("{camera.shutter_speed}").unwrap();
    let rendered = fmt.render_filename("stem", &sample_metadata());
    assert_eq!(rendered, "1_250stem");
}

#[test]
fn renders_focal_length_with_slash_made_safe() {
    let fmt = FilenameFormat::parse("{lens.focal_length}").unwrap();
    let rendered = fmt.render_filename("stem", &sample_metadata());
    assert_eq!(rendered, "50_1stem");
}

#[test]
fn renders_lens_fields_verbatim() {
    let fmt = FilenameFormat::parse("{lens.make}_{lens.model}").unwrap();
    let rendered = fmt.render_filename("stem", &sample_metadata());
    assert_eq!(rendered, "Lensmith_50mm f1.8stem");
}

#[test]
fn preserves_document_order_of_items() {
    let fmt = FilenameFormat::parse("A{camera.make}B{image.original_filename}C").unwrap();
    let rendered = fmt.render_filename("stem", &sample_metadata());
    assert_eq!(rendered, "AACMEBstemC");
}

#[test]
fn renders_unwired_kinds_as_empty() {
    let md = sample_metadata();
    assert_eq!(
        MetadataKind::CameraExposureComp.expand_with_metadata(&md, "stem"),
        ""
    );
    assert_eq!(MetadataKind::CameraFlash.expand_with_metadata(&md, "stem"), "");
    assert_eq!(MetadataKind::LensFStop.expand_with_metadata(&md, "stem"), "");
    assert_eq!(MetadataKind::LensFocusDist.expand_with_metadata(&md, "stem"), "");
    assert_eq!(
        MetadataKind::ImageColorSpace.expand_with_metadata(&md, "stem"),
        ""
    );
    assert_eq!(
        MetadataKind::ImageSequenceNumber.expand_with_metadata(&md, "stem"),
        ""
    );
    assert_eq!(MetadataKind::ImageWidth.expand_with_metadata(&md, "stem"), "");
    assert_eq!(MetadataKind::ImageHeight.expand_with_metadata(&md, "stem"), "");
    assert_eq!(MetadataKind::ImageBitDepth.expand_with_metadata(&md, "stem"), "");
}

#[test]
fn renders_zero_iso_as_single_digit() {
    let mut md = sample_metadata();
    md.iso = Some(0);
    assert_eq!(MetadataKind::CameraISO.expand_with_metadata(&md, "stem"), "0");
}

#[test]
fn renders_percent_escape_directive() {
    let fmt = FilenameFormat::parse("%%").unwrap();
    let rendered = fmt.render_filename("stem", &sample_metadata());
    assert_eq!(rendered, "%stem");
}

#[test]
fn renders_unknown_directive_as_empty() {
    let fmt = FilenameFormat::parse("%é-").unwrap();
    let rendered = fmt.render_filename("stem", &sample_metadata());
    assert_eq!(rendered, "-stem");
}

#[test]
fn renders_escaped_brace_literally() {
    let fmt = FilenameFormat::parse("{{%Y").unwrap();
    let rendered = fmt.render_filename("stem", &sample_metadata());
    assert_eq!(rendered, "{2024stem");
}
