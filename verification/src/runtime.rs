//! What the two programs, the sampler and the assembler, do around a run.

use crate::app::error::AppError;
use crate::encoding::EncodingError;
use crate::resources::paths::{
    file_name_of, join_path, joined_path, parent_of, path_file_name, path_parent,
};
use crate::resources::resource_folder::ResourceError;
use vstd::prelude::*;
use vstd::string::StringExecFns;

verus! {

/// Why a program failed.
#[derive(Debug, Clone)]
pub enum RuntimeError {
    Failed(String),
}

impl RuntimeError {
    /// The message of the error.
    pub open spec fn message(&self) -> Seq<char> {
        match self {
            RuntimeError::Failed(m) => m@,
        }
    }

    /// A folder's error, printed.
    pub fn from_resource(err: &ResourceError) -> (r: RuntimeError)
        ensures
            r.message() == err.text(),
    {
        RuntimeError::Failed(err.to_text())
    }

    /// A run's error, printed.
    pub fn from_app(err: &AppError) -> (r: RuntimeError)
        ensures
            r.message() == err.text(),
    {
        RuntimeError::Failed(err.to_text())
    }

    /// An export's error, printed.
    pub fn from_encoding(err: &EncodingError) -> (r: RuntimeError)
        ensures
            r.message() == err.text(),
    {
        RuntimeError::Failed(err.to_text())
    }

    /// A file system error: the system's message.
    pub fn from_io(message: &str) -> (r: RuntimeError)
        ensures
            r.message() == message@,
    {
        RuntimeError::Failed(String::from_str(message))
    }

    /// A manifest that cannot be read: the parser's message behind
    /// `invalid manifest: `.
    pub fn from_manifest(message: &str) -> (r: RuntimeError)
        ensures
            r.message() == "invalid manifest: "@ + message@,
    {
        let mut text = String::from_str("invalid manifest: ");
        text.append(message);
        RuntimeError::Failed(text)
    }
}

/// The file name of an export: the last component of the configured path, or
/// `output.webm` where it has none.
pub open spec fn output_name(export_file: Seq<char>) -> Seq<char> {
    match path_file_name(export_file) {
        Some(name) => name,
        None => "output.webm"@,
    }
}

/// The folder of an export, as configured: the path without its last
/// component. The program resolves it to an absolute path.
pub fn output_parent(export_file: &str) -> (r: String)
    ensures
        r@ == path_parent(export_file@),
{
    parent_of(export_file)
}

/// The file name of an export, given the last component of the configured
/// path, if it has one: that component, or `output.webm`.
pub fn file_name_or_default(component: Option<String>) -> (r: String)
    ensures
        r@ == match component {
            Some(name) => name@,
            None => "output.webm"@,
        },
{
    match component {
        Some(name) => name,
        None => String::from_str("output.webm"),
    }
}

/// The file name of an export.
pub fn output_file_name(export_file: &str) -> (r: String)
    ensures
        r@ == output_name(export_file@),
{
    file_name_or_default(file_name_of(export_file))
}

/// The absolute path of an export. `resolved` is what resolving the export's
/// folder gave: the absolute folder, nothing where that is no valid text, or
/// the system's message where it could not be resolved.
pub fn get_full_output_path(export_file: &str, resolved: Result<Option<String>, String>) -> (r:
    Result<String, RuntimeError>)
    ensures
        match resolved {
            Ok(Some(folder)) => r matches Ok(path) && path@ == joined_path(
                folder@,
                output_name(export_file@),
            ),
            Ok(None) => r matches Err(e) && e.message() == "Unable to resolve '"@ + export_file@
                + "' to absolute path"@,
            Err(message) => r matches Err(e) && e.message() == message@,
        },
{
    match resolved {
        Err(message) => Err(RuntimeError::Failed(message)),
        Ok(None) => {
            let mut text = String::from_str("Unable to resolve '");
            text.append(export_file);
            text.append("' to absolute path");
            Err(RuntimeError::Failed(text))
        },
        Ok(Some(folder)) => {
            let filename = output_file_name(export_file);
            Ok(join_path(folder.as_str(), filename.as_str()))
        },
    }
}

} // verus!
