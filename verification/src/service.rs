//! The per-call selection logic of the service object: which backend
//! each of the three operations dispatches to, given the record read
//! from the store for that call. Open-file honours the directory flag;
//! the two save operations use their own fields unconditionally.

use vstd::prelude::*;

use crate::backends::{service_name_of, PortalSelect, SelectView};
use crate::config::{ProtalConfig, RecordView};
use crate::protaltypes::{wants_directory, OpenFileOptions};

verus! {

/// The selection an open-file call dispatches to: the directory-open
/// override when the caller asks for a directory, the plain open-file
/// selection otherwise.
pub open spec fn open_backend_of(rec: RecordView, directory: Option<bool>) -> SelectView {
    if wants_directory(directory) {
        rec.openfile_casefolder
    } else {
        rec.openfile
    }
}

impl ProtalConfig {
    /// The backend an open-file call with these options dispatches to.
    pub fn open_file_backend(&self, options: &OpenFileOptions) -> (r: &PortalSelect)
        ensures
            r@ == open_backend_of(self@, options.directory),
    {
        match options.directory {
            Some(true) => &self.openfile_casefolder,
            _ => &self.openfile,
        }
    }

    /// The well-known bus name an open-file call with these options is
    /// addressed to.
    pub fn open_file_destination(&self, options: &OpenFileOptions) -> (r: &str)
        ensures
            r@ == service_name_of(open_backend_of(self@, options.directory)),
    {
        self.open_file_backend(options).service_path()
    }

    /// The backend a save-file call dispatches to.
    pub fn save_file_backend(&self) -> (r: &PortalSelect)
        ensures
            r@ == self@.savefile,
    {
        &self.savefile
    }

    /// The well-known bus name a save-file call is addressed to.
    pub fn save_file_destination(&self) -> (r: &str)
        ensures
            r@ == service_name_of(self@.savefile),
    {
        self.savefile.service_path()
    }

    /// The backend a save-files call dispatches to.
    pub fn save_files_backend(&self) -> (r: &PortalSelect)
        ensures
            r@ == self@.savefiles,
    {
        &self.savefiles
    }

    /// The well-known bus name a save-files call is addressed to.
    pub fn save_files_destination(&self) -> (r: &str)
        ensures
            r@ == service_name_of(self@.savefiles),
    {
        self.savefiles.service_path()
    }
}

} // verus!
