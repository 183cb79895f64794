use rust_snapshot::app::error::AppError;
use rust_snapshot::encoding::EncodingError;
use rust_snapshot::resources::ResourceError;
use rust_snapshot::runtime::{
    file_name_or_default, get_full_output_path, output_file_name, output_parent, RuntimeError,
};
use rust_snapshot::text::{
    decimal_i128, decimal_u128, labelled, parenthesised, parse_u32, text_eq,
};

fn message(err: RuntimeError) -> String {
    match err {
        RuntimeError::Failed(message) => message,
    }
}

#[test]
fn output_path_is_the_resolved_folder_and_the_file_name() {
    let resolved = Ok(Some("/srv/video".to_string()));
    assert_eq!(get_full_output_path("out/video.webm", resolved).unwrap(), "/srv/video/video.webm");
    let resolved = Ok(Some("/srv".to_string()));
    assert_eq!(get_full_output_path("clip.webm", resolved).unwrap(), "/srv/clip.webm");
    // a path without a last component gets the default name
    let resolved = Ok(Some("/srv".to_string()));
    assert_eq!(get_full_output_path("..", resolved).unwrap(), "/srv/output.webm");
    let resolved = Ok(Some("/".to_string()));
    assert_eq!(get_full_output_path("/", resolved).unwrap(), "/output.webm");
}

#[test]
fn output_path_reports_a_folder_that_does_not_resolve() {
    let failed = get_full_output_path("out/video.webm", Err("No such file".to_string()));
    assert_eq!(message(failed.unwrap_err()), "No such file");
    let odd = get_full_output_path("out/video.webm", Ok(None));
    assert_eq!(
        message(odd.unwrap_err()),
        "Unable to resolve 'out/video.webm' to absolute path"
    );
}

#[test]
fn export_file_splits_into_folder_and_name() {
    assert_eq!(output_file_name("out/video.webm"), "video.webm");
    assert_eq!(output_parent("out/video.webm"), "out");
    assert_eq!(output_file_name("video.webm"), "video.webm");
    assert_eq!(output_parent("video.webm"), "");
    assert_eq!(output_file_name("/a/b/c/"), "c");
    assert_eq!(output_parent("/a/b/c/"), "/a/b");
    assert_eq!(output_file_name(""), "output.webm");
    assert_eq!(output_file_name("a/.."), "output.webm");
    assert_eq!(output_parent("/"), "/");
}

#[test]
fn runtime_errors_carry_the_printed_cause() {
    let err = RuntimeError::from_resource(&ResourceError::NoSuchFolder("x".to_string()));
    assert_eq!(message(err), "NoSuchFolder(\"x\")");
    let err = RuntimeError::from_app(&AppError::LockFailed("y".to_string()));
    assert_eq!(message(err), "LockFailed(\"y\")");
    let err = RuntimeError::from_encoding(&EncodingError::InvalidLength);
    assert_eq!(message(err), "InvalidLength");
    let err = RuntimeError::from_io("denied");
    assert_eq!(message(err), "denied");
    let err = RuntimeError::from_manifest("expected an equals, found eof at line 1 column 4");
    assert_eq!(
        message(err),
        "invalid manifest: expected an equals, found eof at line 1 column 4"
    );
}

#[test]
fn numbers_are_written_as_decimal_numerals() {
    for n in [0u128, 1, 9, 10, 11, 99, 100, 101, 4294967295, 1_700_000_000_000, u128::MAX] {
        assert_eq!(decimal_u128(n), format!("{}", n));
    }
    for n in [0i128, -1, 1, -9, -10, 2147483647, -2147483648, i128::MAX, i128::MIN] {
        assert_eq!(decimal_i128(n), format!("{}", n));
    }
}

#[test]
fn texts_are_compared_by_their_characters() {
    assert!(text_eq("", ""));
    assert!(text_eq("abc", "abc"));
    assert!(!text_eq("abc", "abd"));
    assert!(!text_eq("abc", "ab"));
    assert!(!text_eq("é", "e"));
}

#[test]
fn export_without_a_file_name_gets_the_default() {
    assert_eq!(file_name_or_default(Some("clip.webm".to_string())), "clip.webm");
    assert_eq!(file_name_or_default(Some("".to_string())), "");
    assert_eq!(file_name_or_default(None), "output.webm");
}

#[test]
fn messages_are_quoted_in_parentheses() {
    assert_eq!(parenthesised("Name", "\"quoted\""), "Name(\"quoted\")");
    assert_eq!(parenthesised("", ""), "()");
    assert_eq!(labelled("Name", "plain"), "Name(\"plain\")");
    assert_eq!(labelled("Name", "a\tb"), "Name(\"a\\tb\")");
}

#[test]
fn numerals_are_read_as_the_standard_library_reads_them() {
    let texts = [
        "", "0", "00", "7", "+7", "-7", "+", "-", "++7", "+-7", "7+", " 7", "7 ", "4294967295",
        "4294967296", "04294967295", "+4294967295", "42949672950", "99999999999999999999999",
        "1_000", "1e3", "0x10", "１２", "٣", "12a", "a12", "1.0", "+0", "-0", "\u{0}1",
    ];
    for text in texts.iter() {
        assert_eq!(parse_u32(text), text.parse::<u32>().ok(), "reading {:?}", text);
    }
    for n in [0u32, 1, 9, 10, 99, 100, 65535, 65536, 4294967294, u32::MAX] {
        assert_eq!(parse_u32(&format!("{}", n)), Some(n));
        assert_eq!(parse_u32(&format!("+{}", n)), Some(n));
        assert_eq!(parse_u32(&format!("000{}", n)), Some(n));
    }
}
