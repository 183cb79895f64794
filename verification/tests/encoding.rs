use rust_snapshot::encoding::ffmpeg_exporter::{export_result, invoke_ffmpeg_cli, ExitReport};
use rust_snapshot::encoding::{Encoding, EncodingError};
use rust_snapshot::resources::ResourceFolder;

#[test]
pub fn test_save_as_rgb() {
    let raw_bytes = vec![0u8; 3280 * 2464 * 3];
    let enc = Encoding::new();
    let buffer = enc.frame_from_slice(raw_bytes.as_slice(), 3280, 2464).ok().unwrap();
    assert_eq!(buffer.width(), 3280);
    assert_eq!(buffer.height(), 2464);
    assert_eq!(buffer.as_raw().len(), 3280 * 2464 * 3);
}

#[test]
fn frame_needs_exactly_three_bytes_per_pixel() {
    let enc = Encoding::default();
    let bytes: Vec<u8> = (0..24).collect();
    let frame = enc.frame_from_slice(&bytes, 4, 2).unwrap();
    assert_eq!((frame.width(), frame.height()), (4, 2));
    assert_eq!(frame.as_raw(), bytes.as_slice());
    let frame = enc.frame_from_slice(&bytes, 2, 4).unwrap();
    assert_eq!((frame.width(), frame.height()), (2, 4));
    let frame = enc.frame_from_slice(&bytes, 8, 1).unwrap();
    assert_eq!((frame.width(), frame.height()), (8, 1));

    for (width, height) in [(4u32, 3u32), (3, 2), (5, 2), (1, 1), (0, 0), (24, 1), (4, 1)] {
        assert!(
            matches!(enc.frame_from_slice(&bytes, width, height), Err(EncodingError::InvalidLength)),
            "{}x{} does not take 24 bytes",
            width,
            height
        );
    }
    // a length that is a multiple of the height is not enough
    assert!(matches!(enc.frame_from_slice(&bytes[..12], 4, 2), Err(EncodingError::InvalidLength)));
    assert!(matches!(enc.frame_from_slice(&bytes[..23], 4, 2), Err(EncodingError::InvalidLength)));
    // sizes that overflow 32 bits are computed exactly
    assert!(matches!(
        enc.frame_from_slice(&bytes, 0x8000_0000, 2),
        Err(EncodingError::InvalidLength)
    ));
    assert!(matches!(
        enc.frame_from_slice(&[], u32::MAX, u32::MAX),
        Err(EncodingError::InvalidLength)
    ));
}

#[test]
fn empty_frame_takes_an_empty_buffer() {
    let enc = Encoding::new();
    let frame = enc.frame_from_slice(&[], 0, 17).unwrap();
    assert_eq!((frame.width(), frame.height()), (0, 17));
    assert!(frame.as_raw().is_empty());
    assert!(enc.frame_from_slice(&[], 0, 0).is_ok());
}

#[test]
fn export_command_is_the_fixed_filter_chain() {
    let command = invoke_ffmpeg_cli("/data/frames", "*.png", "/data/out.webm", 24, false);
    assert_eq!(command.program, "ffmpeg");
    assert_eq!(command.current_dir, "/data/frames");
    assert_eq!(
        command.args,
        vec![
            "-y",
            "-framerate",
            "24",
            "-pattern_type",
            "glob",
            "-i",
            "*.png",
            "-c:v",
            "libvpx-vp9",
            "-pix_fmt",
            "yuva420p",
            "-lossless",
            "1",
            "/data/out.webm"
        ]
    );
    let command = invoke_ffmpeg_cli("frames", "%d_*", "out.webm", 0, true);
    assert_eq!(command.program, "ffmpeg.exe");
    assert_eq!(command.args[2], "0");
    // the pattern handed over is the one the encoder reads
    assert_eq!(command.args[5], "-i");
    assert_eq!(command.args[6], "%d_*");
    let command = invoke_ffmpeg_cli("frames", "", "out.webm", 1, false);
    assert_eq!(command.args[6], "");
    let command = invoke_ffmpeg_cli("frames", "*", "out.webm", u32::MAX, true);
    assert_eq!(command.args[2], "4294967295");
}

#[test]
fn export_needs_a_required_folder() {
    let enc = Encoding::new();
    let folder = ResourceFolder::new("frames");
    match enc.export_webm(&folder, "%d_*", "out.webm", 30, false) {
        Err(err) => {
            assert!(matches!(&err, EncodingError::InvalidSourceData(m) if m == "NotReady"));
            assert_eq!(err.to_text(), "InvalidSourceData(\"NotReady\")");
        }
        Ok(_) => panic!("the folder was not required"),
    }
    let folder = folder.require(Ok(())).unwrap();
    let command = enc.export_webm(&folder, "%d_*", "out.webm", 30, false).unwrap();
    assert_eq!(command.program, "ffmpeg");
    assert_eq!(command.current_dir, "frames");
    assert_eq!(command.args.len(), 14);
    assert_eq!(command.args[2], "30");
    assert_eq!(command.args[6], "%d_*");
    assert_eq!(command.args[13], "out.webm");
}

fn ended(success: bool, status: &str) -> Result<ExitReport, String> {
    Ok(ExitReport { success, status: status.to_string() })
}

#[test]
fn export_result_reports_a_process_that_did_not_run() {
    assert!(export_result(ended(true, "exit status: 0")).is_ok());
    match export_result(Err("No such file or directory (os error 2)".to_string())) {
        Err(err) => {
            assert_eq!(err.to_text(), format!("{:?}", err));
            assert!(matches!(
                err,
                EncodingError::FailedToRenderVideo(m) if m == "No such file or directory (os error 2)"
            ));
        }
        Ok(()) => panic!("the process did not run"),
    }
    assert_eq!(EncodingError::InvalidLength.to_text(), "InvalidLength");
    assert_eq!(EncodingError::InvalidBufferData.to_text(), "InvalidBufferData");
}

#[test]
fn export_result_reports_an_encoder_that_did_not_succeed() {
    for status in ["exit status: 1", "exit status: 255", "signal: 9 (SIGKILL)", ""] {
        match export_result(ended(false, status)) {
            Err(EncodingError::FailedToRenderVideo(message)) => {
                assert_eq!(message, format!("video encoding status: {}", status));
            }
            _ => panic!("the encoder did not succeed"),
        }
    }
    // the status text does not decide: the report of success does
    assert!(export_result(ended(true, "exit status: 1")).is_ok());
}
