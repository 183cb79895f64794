//! Where the frames of a run are stored.

use super::error::AppError;
use crate::resources::paths::joined_path;
use crate::resources::resource_folder::ResourceFolder;
use crate::resources::time_probe::TimeSnapshot;
use crate::text::{decimal_text, decimal_u128};
use vstd::prelude::*;
use vstd::string::StringExecFns;

verus! {

/// The file name of the frame of a snapshot: the timestamp, a hyphen, the
/// calendar form where there is one, and the extension `.png`.
pub open spec fn frame_file_name(timestamp: int, utc: Option<Seq<char>>) -> Seq<char> {
    decimal_text(timestamp) + "-"@ + match utc {
        Some(text) => text,
        None => Seq::empty(),
    } + ".png"@
}

/// Names the files that frames are stored in.
pub struct ImageLogger {
    output_folder: ResourceFolder,
}

impl ImageLogger {
    /// The folder that frames are stored in.
    pub closed spec fn folder(&self) -> ResourceFolder {
        self.output_folder
    }

    /// A logger that stores frames in `output_folder`.
    pub fn new(output_folder: ResourceFolder) -> (r: ImageLogger)
        ensures
            r.folder() == output_folder,
    {
        ImageLogger { output_folder }
    }

    /// The path at which the frame of `timestamp` is stored; fails with
    /// `InvalidResource` where the folder was not required first.
    pub fn save(&self, timestamp: &TimeSnapshot) -> (r: Result<String, AppError>)
        ensures
            self.folder().is_ready() ==> (r matches Ok(path) && path@ == joined_path(
                self.folder().location(),
                frame_file_name(timestamp@.timestamp, timestamp@.utc),
            )),
            !self.folder().is_ready() ==> (r matches Err(AppError::InvalidResource(m)) && m@
                == "NotReady"@),
    {
        let mut filename = decimal_u128(timestamp.timestamp);
        filename.append("-");
        match &timestamp.utc {
            Some(text) => {
                filename.append(text.as_str());
            },
            None => {},
        }
        filename.append(".png");
        assert(filename@ =~= frame_file_name(timestamp@.timestamp, timestamp@.utc));
        match self.output_folder.path(filename.as_str()) {
            Ok(path) => Ok(path),
            Err(err) => Err(AppError::from_resource(&err)),
        }
    }
}

} // verus!
