//! A folder that must exist before paths inside it are handed out.

use super::paths::{join_path, joined_path, name_views, names_sorted, path_exists, sort_names};
use crate::text::{debug_quoted, debug_text};
use vstd::prelude::*;
use vstd::string::StringExecFns;

verus! {

/// Why a folder could not be used.
#[derive(Debug, Clone)]
pub enum ResourceError {
    /// The folder was not required before it was used.
    NotReady,
    /// The folder does not exist; the message is its quoted path.
    NoSuchFolder(String),
    /// The folder could not be created or read; the message is the system's.
    UnableToCreateFolder(String),
}

impl ResourceError {
    /// The printed form of the error: its name, and the quoted message in
    /// parentheses where it has one.
    pub open spec fn text(&self) -> Seq<char> {
        match self {
            ResourceError::NotReady => "NotReady"@,
            ResourceError::NoSuchFolder(m) => "NoSuchFolder"@ + "("@ + debug_text(m@) + ")"@,
            ResourceError::UnableToCreateFolder(m) => "UnableToCreateFolder"@ + "("@ + debug_text(
                m@,
            ) + ")"@,
        }
    }

    /// Prints the error.
    pub fn to_text(&self) -> (r: String)
        ensures
            r@ == self.text(),
    {
        match self {
            ResourceError::NotReady => String::from_str("NotReady"),
            ResourceError::NoSuchFolder(m) => crate::text::labelled(
                "NoSuchFolder",
                m.as_str(),
            ),
            ResourceError::UnableToCreateFolder(m) => crate::text::labelled(
                "UnableToCreateFolder",
                m.as_str(),
            ),
        }
    }
}

/// A folder on disk, and whether it has been required.
pub struct ResourceFolder {
    ready: bool,
    path: String,
}

impl Clone for ResourceFolder {
    fn clone(&self) -> (r: Self)
        ensures
            r.is_ready() == self.is_ready(),
            r.location() == self.location(),
    {
        ResourceFolder { ready: self.ready, path: self.path.clone() }
    }
}

impl ResourceFolder {
    /// Whether the folder has been required.
    pub closed spec fn is_ready(&self) -> bool {
        self.ready
    }

    /// The path that the folder was made with.
    pub closed spec fn location(&self) -> Seq<char> {
        self.path@
    }

    /// The folder at `path`, not yet required.
    pub fn new(path: &str) -> (r: ResourceFolder)
        ensures
            !r.is_ready(),
            r.location() == path@,
    {
        ResourceFolder { ready: false, path: String::from_str(path) }
    }

    /// The path that the folder was made with, required or not.
    pub fn location_text(&self) -> (r: String)
        ensures
            r@ == self.location(),
    {
        self.path.clone()
    }

    /// Whether the folder is on disk right now.
    pub fn exists_on_disk(&self) -> bool {
        path_exists(self.path.as_str())
    }

    /// Makes the folder ready if it is on disk; fails with `NoSuchFolder`
    /// and the quoted path if it is not.
    pub fn require_existing(self) -> (r: Result<ResourceFolder, ResourceError>)
        ensures
            match r {
                Ok(folder) => folder.is_ready() && folder.location() == self.location(),
                Err(e) => e matches ResourceError::NoSuchFolder(m) && m@ == debug_text(
                    self.location(),
                ),
            },
    {
        let present = self.exists_on_disk();
        self.confirm_existing(present)
    }

    /// Makes the folder ready, given whether it is on disk.
    pub fn confirm_existing(self, present: bool) -> (r: Result<ResourceFolder, ResourceError>)
        ensures
            present ==> (r matches Ok(folder) && folder.is_ready() && folder.location()
                == self.location()),
            !present ==> (r matches Err(ResourceError::NoSuchFolder(m)) && m@ == debug_text(
                self.location(),
            )),
    {
        if !present {
            return Err(ResourceError::NoSuchFolder(debug_quoted(self.path.as_str())));
        }
        let mut folder = self;
        folder.ready = true;
        Ok(folder)
    }

    /// Makes the folder ready, given how creating it went where it was
    /// missing; fails with `UnableToCreateFolder` and the system's message
    /// where that failed.
    pub fn require(self, creation: Result<(), String>) -> (r: Result<ResourceFolder, ResourceError>)
        ensures
            match creation {
                Ok(_) => r matches Ok(folder) && folder.is_ready() && folder.location()
                    == self.location(),
                Err(message) => r matches Err(ResourceError::UnableToCreateFolder(m)) && m@
                    == message@,
            },
    {
        match creation {
            Err(message) => Err(ResourceError::UnableToCreateFolder(message)),
            Ok(_) => {
                let mut folder = self;
                folder.ready = true;
                Ok(folder)
            },
        }
    }

    /// The path of `path` inside the folder; `NotReady` before the folder was
    /// required.
    pub fn path(&self, path: &str) -> (r: Result<String, ResourceError>)
        ensures
            self.is_ready() ==> (r matches Ok(child) && child@ == joined_path(
                self.location(),
                path@,
            )),
            !self.is_ready() ==> r matches Err(ResourceError::NotReady),
    {
        if !self.ready {
            return Err(ResourceError::NotReady);
        }
        Ok(join_path(self.path.as_str(), path))
    }

    /// The folder's own path; `NotReady` before the folder was required.
    pub fn basepath(&self) -> (r: Result<String, ResourceError>)
        ensures
            self.is_ready() ==> (r matches Ok(base) && base@ == self.location()),
            !self.is_ready() ==> r matches Err(ResourceError::NotReady),
    {
        if !self.ready {
            return Err(ResourceError::NotReady);
        }
        Ok(self.path.clone())
    }

    /// The names found in the folder, sorted. `listing` is what reading the
    /// folder gave: the names of its entries, or the system's message.
    /// `NotReady` before the folder was required, whatever the listing.
    pub fn enumerate_files(&self, listing: Result<Vec<String>, String>) -> (r: Result<
        Vec<String>,
        ResourceError,
    >)
        ensures
            !self.is_ready() ==> r matches Err(ResourceError::NotReady),
            self.is_ready() ==> match listing {
                Ok(names) => r matches Ok(sorted) && names_sorted(sorted@) && name_views(
                    sorted@,
                ).to_multiset() == name_views(names@).to_multiset(),
                Err(message) => r matches Err(ResourceError::UnableToCreateFolder(m)) && m@
                    == message@,
            },
    {
        if !self.ready {
            return Err(ResourceError::NotReady);
        }
        match listing {
            Err(message) => Err(ResourceError::UnableToCreateFolder(message)),
            Ok(names) => Ok(sort_names(names)),
        }
    }
}

} // verus!
