use tararchiver::algorithm::validate_level;
use tararchiver::{is_normal_path, CompressionType, Compressor, CompressionError, ErrorKind};

#[test]
fn parse_accepts_the_four_names_case_insensitively() {
    assert_eq!(CompressionType::new("lz4").unwrap(), CompressionType::LZ4);
    assert_eq!(CompressionType::new("gzip").unwrap(), CompressionType::GZIP);
    assert_eq!(CompressionType::new("zstd").unwrap(), CompressionType::ZSTD);
    assert_eq!(CompressionType::new("xz").unwrap(), CompressionType::XZ);
    assert_eq!(CompressionType::new("LZ4").unwrap(), CompressionType::LZ4);
    assert_eq!(CompressionType::new("GzIp").unwrap(), CompressionType::GZIP);
    assert_eq!(CompressionType::new("Zstd").unwrap(), CompressionType::ZSTD);
    assert_eq!(CompressionType::new("XZ").unwrap(), CompressionType::XZ);
}

#[test]
fn parse_rejects_unknown_names() {
    for name in ["brotli", "", "gz", "tar", "zst", "gzip ", "lzma"] {
        let result = CompressionType::new(name);
        assert!(matches!(result, Err(e) if matches!(e.kind, ErrorKind::UnknownType)));
    }
}

#[test]
fn parse_inverts_render() {
    for comp_type in [
        CompressionType::LZ4,
        CompressionType::GZIP,
        CompressionType::ZSTD,
        CompressionType::XZ,
    ] {
        assert_eq!(CompressionType::new(comp_type.render()).unwrap(), comp_type);
    }
}

#[test]
fn render_gives_the_canonical_lowercase_names() {
    assert_eq!(CompressionType::LZ4.render(), "lz4");
    assert_eq!(CompressionType::GZIP.render(), "gzip");
    assert_eq!(CompressionType::ZSTD.render(), "zstd");
    assert_eq!(CompressionType::XZ.render(), "xz");
}

#[test]
fn levels_are_validated_per_algorithm() {
    for comp_type in [CompressionType::LZ4, CompressionType::GZIP, CompressionType::XZ] {
        assert!(validate_level(comp_type, 0));
        assert!(validate_level(comp_type, 9));
        assert!(!validate_level(comp_type, 10));
        assert!(!validate_level(comp_type, 21));
    }
    assert!(validate_level(CompressionType::ZSTD, 0));
    assert!(validate_level(CompressionType::ZSTD, 9));
    assert!(validate_level(CompressionType::ZSTD, 21));
    assert!(!validate_level(CompressionType::ZSTD, 22));
    assert!(!validate_level(CompressionType::ZSTD, u32::MAX));
}

#[test]
fn gzip_level_fifteen_is_rejected_before_any_work() {
    let result = Compressor::new(
        "src".to_string(),
        "out".to_string(),
        "out.tar.gz".to_string(),
        CompressionType::GZIP,
        15,
    );
    assert!(matches!(result, Err(e) if matches!(e.kind, ErrorKind::InvalidLevel)));
}

#[test]
fn out_of_range_levels_are_rejected_and_boundary_levels_accepted() {
    assert!(Compressor::new(
        "s".to_string(),
        "t".to_string(),
        "f".to_string(),
        CompressionType::XZ,
        10
    )
    .is_err());
    assert!(Compressor::new(
        "s".to_string(),
        "t".to_string(),
        "f".to_string(),
        CompressionType::LZ4,
        22
    )
    .is_err());
    assert!(Compressor::new(
        "s".to_string(),
        "t".to_string(),
        "f".to_string(),
        CompressionType::ZSTD,
        22
    )
    .is_err());
    assert!(Compressor::new(
        "s".to_string(),
        "t".to_string(),
        "f".to_string(),
        CompressionType::ZSTD,
        21
    )
    .is_ok());
    assert!(Compressor::new(
        "s".to_string(),
        "t".to_string(),
        "f".to_string(),
        CompressionType::GZIP,
        9
    )
    .is_ok());
}

#[test]
fn compressor_new_keeps_the_job_fields() {
    let comp = Compressor::new(
        "the_source".to_string(),
        "the_target".to_string(),
        "a.tar.gz".to_string(),
        CompressionType::GZIP,
        3,
    )
    .unwrap();
    assert_eq!(comp.from, "the_source");
    assert_eq!(comp.target, "the_target");
    assert_eq!(comp.file_name, "a.tar.gz");
    assert_eq!(comp.comp_type, CompressionType::GZIP);
    assert_eq!(comp.comp_level, 3);
}

#[test]
fn error_kinds_come_back_from_their_names() {
    assert!(matches!(ErrorKind::new_by_string("invalidlevel"), ErrorKind::InvalidLevel));
    assert!(matches!(ErrorKind::new_by_string("InvalidLevel"), ErrorKind::InvalidLevel));
    assert!(matches!(ErrorKind::new_by_string("UNKOWNTYPE"), ErrorKind::UnknownType));
    assert!(matches!(
        ErrorKind::new_by_string("UnreachableTarget"),
        ErrorKind::UnreachableTarget
    ));
    assert!(matches!(
        ErrorKind::new_by_string("sourcedoesnotexists"),
        ErrorKind::SourceDoesNotExists
    ));
}

#[test]
fn only_the_misspelled_unknown_token_is_recognized() {
    assert!(matches!(ErrorKind::new_by_string("unkowntype"), ErrorKind::UnknownType));
    match ErrorKind::new_by_string("unknowntype") {
        ErrorKind::Other(text) => assert_eq!(text, "unknowntype"),
        _ => panic!("expected the catch-all kind"),
    }
}

#[test]
fn normal_paths_are_told_from_unsafe_ones() {
    assert!(is_normal_path("a"));
    assert!(is_normal_path("a/b"));
    assert!(is_normal_path("dir/sub/file.txt"));
    assert!(is_normal_path(".hidden"));
    assert!(is_normal_path("a."));
    assert!(is_normal_path("a..b"));
    assert!(is_normal_path("..a/b.."));
    assert!(!is_normal_path(""));
    assert!(!is_normal_path("/"));
    assert!(!is_normal_path("/etc/passwd"));
    assert!(!is_normal_path("a/"));
    assert!(!is_normal_path("a//b"));
    assert!(!is_normal_path("."));
    assert!(!is_normal_path(".."));
    assert!(!is_normal_path("./a"));
    assert!(!is_normal_path("../a"));
    assert!(!is_normal_path("a/./b"));
    assert!(!is_normal_path("a/../b"));
    assert!(!is_normal_path("a/.."));
    assert!(!is_normal_path("a/b\0c"));
}

#[test]
fn unrecognized_error_names_are_kept_lowercased() {
    let kind = ErrorKind::new_by_string("Some Strange FAILURE");
    match kind {
        ErrorKind::Other(text) => assert_eq!(text, "some strange failure"),
        _ => panic!("expected the catch-all kind"),
    }
}

#[test]
fn error_messages_are_the_documented_texts() {
    assert_eq!(
        ErrorKind::InvalidLevel.message(),
        "Ordered compression level is wrong for this type."
    );
    assert_eq!(
        ErrorKind::UnknownType.message(),
        "Ordered compression type does not recognized"
    );
    assert_eq!(ErrorKind::UnreachableTarget.message(), "The target does not reachable");
    assert_eq!(ErrorKind::SourceDoesNotExists.message(), "The source does not exists");
    assert_eq!(ErrorKind::Other("boom".to_string()).message(), "boom");
    let error = CompressionError::new(ErrorKind::UnknownType);
    assert_eq!(
        error.message(),
        "Compression Error: Ordered compression type does not recognized"
    );
}
