//! The command line of the external encoder.

use super::EncodingError;
use crate::text::{decimal_text, decimal_u128};
use vstd::prelude::*;
use vstd::string::StringExecFns;

verus! {

/// A process to run: the program, its arguments and its working directory.
#[derive(Debug, Clone)]
pub struct FfmpegCommand {
    pub program: String,
    pub args: Vec<String>,
    pub current_dir: String,
}

impl FfmpegCommand {
    /// The arguments as texts.
    pub open spec fn arguments(&self) -> Seq<Seq<char>> {
        self.args@.map_values(|a: String| a@)
    }
}

/// The name of the encoder's program.
pub open spec fn ffmpeg_program(windows: bool) -> Seq<char> {
    if windows {
        "ffmpeg.exe"@
    } else {
        "ffmpeg"@
    }
}

/// The encoder's arguments: overwrite the output, read the files of the
/// working directory that match the glob pattern at the given frame rate, and
/// encode them without loss as VP9 with an alpha channel.
pub open spec fn ffmpeg_arguments(
    file_pattern: Seq<char>,
    output_file: Seq<char>,
    framerate: u32,
) -> Seq<Seq<char>> {
    seq![
        "-y"@,
        "-framerate"@,
        decimal_text(framerate as int),
        "-pattern_type"@,
        "glob"@,
        "-i"@,
        file_pattern,
        "-c:v"@,
        "libvpx-vp9"@,
        "-pix_fmt"@,
        "yuva420p"@,
        "-lossless"@,
        "1"@,
        output_file,
    ]
}

/// The command that exports the frames of `input_folder` that match
/// `file_pattern` as `output_file`. For the pattern `*.png` it comes to:
/// `ffmpeg -y -framerate 24 -pattern_type glob -i *.png -c:v libvpx-vp9
/// -pix_fmt yuva420p -lossless 1 out.webm`, run inside the folder.
pub fn invoke_ffmpeg_cli(
    input_folder: &str,
    file_pattern: &str,
    output_file: &str,
    framerate: u32,
    windows: bool,
) -> (r: FfmpegCommand)
    ensures
        r.program@ == ffmpeg_program(windows),
        r.arguments() == ffmpeg_arguments(file_pattern@, output_file@, framerate),
        r.current_dir@ == input_folder@,
{
    let program = if windows {
        String::from_str("ffmpeg.exe")
    } else {
        String::from_str("ffmpeg")
    };
    let mut args: Vec<String> = Vec::new();
    args.push(String::from_str("-y"));
    args.push(String::from_str("-framerate"));
    args.push(decimal_u128(framerate as u128));
    args.push(String::from_str("-pattern_type"));
    args.push(String::from_str("glob"));
    args.push(String::from_str("-i"));
    args.push(String::from_str(file_pattern));
    args.push(String::from_str("-c:v"));
    args.push(String::from_str("libvpx-vp9"));
    args.push(String::from_str("-pix_fmt"));
    args.push(String::from_str("yuva420p"));
    args.push(String::from_str("-lossless"));
    args.push(String::from_str("1"));
    args.push(String::from_str(output_file));
    let command = FfmpegCommand { program, args, current_dir: String::from_str(input_folder) };
    assert(command.arguments() =~= ffmpeg_arguments(file_pattern@, output_file@, framerate));
    command
}

/// How the encoder's process ended.
#[derive(Debug, Clone)]
pub struct ExitReport {
    /// Whether the process reported success.
    pub success: bool,
    /// The exit status as the system prints it.
    pub status: String,
}

/// The message for an encoder that ran and did not succeed.
pub open spec fn status_message(status: Seq<char>) -> Seq<char> {
    "video encoding status: "@ + status
}

/// The result of an export, given how running the command went. The export
/// succeeds only where the process ran and reported success. A process that
/// ended with another status becomes `FailedToRenderVideo` with that status,
/// a process that could not be run `FailedToRenderVideo` with the system's
/// message.
pub fn export_result(ran: Result<ExitReport, String>) -> (r: Result<(), EncodingError>)
    ensures
        match ran {
            Ok(report) => if report.success {
                r is Ok
            } else {
                r matches Err(EncodingError::FailedToRenderVideo(m)) && m@ == status_message(
                    report.status@,
                )
            },
            Err(message) => r matches Err(EncodingError::FailedToRenderVideo(m)) && m@ == message@,
        },
{
    match ran {
        Ok(report) => {
            if report.success {
                Ok(())
            } else {
                let mut message = String::from_str("video encoding status: ");
                message.append(report.status.as_str());
                Err(EncodingError::FailedToRenderVideo(message))
            }
        },
        Err(message) => Err(EncodingError::FailedToRenderVideo(message)),
    }
}

} // verus!
