use rawbit::error::ParseErrorType;
use rawbit::metadata::MetadataKind;
use rawbit::parse::expand;
use rawbit::parse::parse_name_format;
use rawbit::parse::FilenameFormat;
use rawbit::parse::FmtItem;

#[test]
fn parses_expansions_and_strftime_ok() {
    assert!(FilenameFormat::parse("%Y-%m-%d_{camera.make}").is_ok());
}

#[test]
fn fails_to_parse_incomplete_expansion() {
    const BAD_EXPANSION: &str = "{camera.make";
    assert!(FilenameFormat::parse(BAD_EXPANSION).is_err());
}

#[test]
fn escaped_double_squirly_brace_only_prints_one() {
    let escaped = format!("{}{}%Y{{image.original_filename}}", '{', '{');
    let parsed = FilenameFormat::parse(&escaped);

    assert!(parsed.is_ok());

    let parsed = parsed.unwrap();

    assert!(parsed.0.len() == 3);

    assert!(matches!(
        parsed.0[0], FmtItem::Literal(ref s) if s.chars().next().unwrap() == '{' && s.len() == 1
    ));

    assert!(matches!(parsed.0[1], FmtItem::DateTime(..)));
}

#[test]
fn inserts_fname_automatically() {
    const FMT_STR_NO_FNAME: &str = "%Y";

    let parsed = FilenameFormat::parse(FMT_STR_NO_FNAME).unwrap();

    assert_eq!(
        parsed.0,
        vec![
            FmtItem::DateTime("%Y".into()),
            FmtItem::Metadata(MetadataKind::ImageOriginalFilename)
        ]
    );
}

#[test]
fn parse_parses_expansions_and_strftime_ok() {
    assert!(parse_name_format("%Y-%m-%d_{camera.make}").is_ok());
}

#[test]
fn parse_fails_to_parse_incomplete_expansion() {
    const BAD_EXPANSION: &str = "{camera.make";
    assert!(parse_name_format(BAD_EXPANSION).is_err());
}

#[test]
fn full_item_sequence_of_mixed_format() {
    let parsed = FilenameFormat::parse("%Y-%m-%d_{camera.make}").unwrap();
    assert_eq!(
        parsed.0,
        vec![
            FmtItem::DateTime("%Y".into()),
            FmtItem::Literal("-".into()),
            FmtItem::DateTime("%m".into()),
            FmtItem::Literal("-".into()),
            FmtItem::DateTime("%d".into()),
            FmtItem::Literal("_".into()),
            FmtItem::Metadata(MetadataKind::CameraMake),
            FmtItem::Metadata(MetadataKind::ImageOriginalFilename),
        ]
    );
}

#[test]
fn unterminated_expansion_span_covers_remainder() {
    let err = FilenameFormat::parse("{camera.make").unwrap_err();
    assert!(matches!(err.err_ty, ParseErrorType::UnterminatedExpansion));
    assert_eq!(err.original, "{camera.make");
    assert_eq!(err.start, 0);
    assert_eq!(err.width, 12);
}

#[test]
fn unknown_key_is_invalid_expansion_with_braced_span() {
    let err = FilenameFormat::parse("a{bogus}b").unwrap_err();
    assert!(matches!(err.err_ty, ParseErrorType::InvalidExpansion));
    assert_eq!(err.original, "a{bogus}b");
    assert_eq!(err.start, 1);
    assert_eq!(err.width, 7);
}

#[test]
fn trailing_percent_is_invalid_expansion() {
    let err = FilenameFormat::parse("abc%").unwrap_err();
    assert!(matches!(err.err_ty, ParseErrorType::InvalidExpansion));
    assert_eq!(err.start, 3);
    assert_eq!(err.width, 1);
}

#[test]
fn trailing_open_brace_is_unknown_error() {
    let err = FilenameFormat::parse("abc{").unwrap_err();
    assert!(matches!(err.err_ty, ParseErrorType::Unknown));
    assert_eq!(err.start, 3);
    assert_eq!(err.width, 1);
}

#[test]
fn empty_braces_at_end_are_invalid_expansion() {
    let err = FilenameFormat::parse("x{}").unwrap_err();
    assert!(matches!(err.err_ty, ParseErrorType::InvalidExpansion));
    assert_eq!(err.start, 1);
    assert_eq!(err.width, 2);
}

#[test]
fn error_offsets_count_characters_not_bytes() {
    let err = FilenameFormat::parse("é{x").unwrap_err();
    assert!(matches!(err.err_ty, ParseErrorType::UnterminatedExpansion));
    assert_eq!(err.start, 1);
    assert_eq!(err.width, 2);
}

#[test]
fn empty_format_renders_only_original_filename() {
    let parsed = FilenameFormat::parse("").unwrap();
    assert_eq!(
        parsed.0,
        vec![FmtItem::Metadata(MetadataKind::ImageOriginalFilename)]
    );
}

#[test]
fn compile_is_deterministic_on_equal_inputs() {
    let a = FilenameFormat::parse("%Y_{lens.model}").unwrap();
    let b = FilenameFormat::parse("%Y_{lens.model}").unwrap();
    assert_eq!(a.0, b.0);
}

#[test]
fn explicit_duplicate_original_filename_is_kept_as_written() {
    let parsed =
        FilenameFormat::parse("{image.original_filename}{image.original_filename}").unwrap();
    assert_eq!(
        parsed.0,
        vec![
            FmtItem::Metadata(MetadataKind::ImageOriginalFilename),
            FmtItem::Metadata(MetadataKind::ImageOriginalFilename),
        ]
    );
}

#[test]
fn directive_may_take_any_following_character() {
    let parsed = FilenameFormat::parse("%{a}").unwrap();
    assert_eq!(
        parsed.0,
        vec![
            FmtItem::DateTime("%{".into()),
            FmtItem::Literal("a}".into()),
            FmtItem::Metadata(MetadataKind::ImageOriginalFilename),
        ]
    );
}

#[test]
fn directive_length_counts_characters_not_bytes() {
    let parsed = FilenameFormat::parse("%é").unwrap();
    assert_eq!(
        parsed.0,
        vec![
            FmtItem::DateTime("%é".into()),
            FmtItem::Metadata(MetadataKind::ImageOriginalFilename),
        ]
    );
}

#[test]
fn expansion_body_swallows_first_close_brace_after_open() {
    let err = FilenameFormat::parse("{}x}").unwrap_err();
    assert!(matches!(err.err_ty, ParseErrorType::InvalidExpansion));
    assert_eq!(err.start, 0);
    assert_eq!(err.width, 4);
}

#[test]
fn expand_resolves_catalog_keys() {
    assert_eq!(
        expand("camera.make"),
        Some(FmtItem::Metadata(MetadataKind::CameraMake))
    );
    assert_eq!(
        expand("image.original_filename"),
        Some(FmtItem::Metadata(MetadataKind::ImageOriginalFilename))
    );
    assert_eq!(expand("camera.flash"), None);
    assert_eq!(expand(""), None);
}

#[test]
fn as_str_round_trips_through_expand() {
    let kinds = [
        MetadataKind::CameraMake,
        MetadataKind::CameraModel,
        MetadataKind::CameraShutterSpeed,
        MetadataKind::CameraExposureComp,
        MetadataKind::CameraISO,
        MetadataKind::CameraFlash,
        MetadataKind::LensFStop,
        MetadataKind::LensMake,
        MetadataKind::LensModel,
        MetadataKind::LensFocalLength,
        MetadataKind::LensFocusDist,
        MetadataKind::ImageColorSpace,
        MetadataKind::ImageSequenceNumber,
        MetadataKind::ImageHeight,
        MetadataKind::ImageWidth,
        MetadataKind::ImageBitDepth,
        MetadataKind::ImageOriginalFilename,
    ];
    for kind in kinds {
        assert_eq!(expand(kind.as_str()), Some(FmtItem::Metadata(kind)));
    }
}
