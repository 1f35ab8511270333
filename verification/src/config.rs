//! The configuration record: the typed result of reading the user's
//! configuration file, and the fully-populated per-operation record the
//! dispatch engine works with.

use vstd::prelude::*;

use crate::backends::{PortalSelect, SelectView};
use crate::parse::{parse_doc, str_eq};

verus! {

/// The optional override group of the configuration file: the backend
/// used for `open_file` when the caller asks for a directory.
#[derive(Debug, PartialEq, Eq)]
pub struct Tips {
    pub open_file_when_folder: String,
}

/// The mathematical value of `Tips`.
pub struct TipsView {
    pub open_file_when_folder: Seq<char>,
}

impl View for Tips {
    type V = TipsView;

    open spec fn view(&self) -> TipsView {
        TipsView { open_file_when_folder: self.open_file_when_folder@ }
    }
}

/// The raw configuration as written in the file: textual backend names,
/// with the optional fields still optional.
#[derive(Debug, PartialEq, Eq)]
pub struct Config {
    pub open_file: String,
    pub save_file: String,
    pub save_files: Option<String>,
    pub tips: Option<Tips>,
}

/// The mathematical value of `Config`.
pub struct ConfigView {
    pub open_file: Seq<char>,
    pub save_file: Seq<char>,
    pub save_files: Option<Seq<char>>,
    pub tips: Option<TipsView>,
}

impl View for Config {
    type V = ConfigView;

    open spec fn view(&self) -> ConfigView {
        ConfigView {
            open_file: self.open_file@,
            save_file: self.save_file@,
            save_files: match self.save_files {
                Option::None => Option::None,
                Option::Some(s) => Option::Some(s@),
            },
            tips: match self.tips {
                Option::None => Option::None,
                Option::Some(t) => Option::Some(t@),
            },
        }
    }
}

/// The fully-populated configuration record: one backend selection per
/// operation, with every absence already resolved. This is the value the
/// service reads on each call.
#[derive(Debug, PartialEq, Eq)]
pub struct ProtalConfig {
    pub savefile: PortalSelect,
    pub openfile: PortalSelect,
    pub savefiles: PortalSelect,
    pub openfile_casefolder: PortalSelect,
}

/// The mathematical value of `ProtalConfig`.
pub struct RecordView {
    pub savefile: SelectView,
    pub openfile: SelectView,
    pub savefiles: SelectView,
    pub openfile_casefolder: SelectView,
}

impl View for ProtalConfig {
    type V = RecordView;

    open spec fn view(&self) -> RecordView {
        RecordView {
            savefile: self.savefile@,
            openfile: self.openfile@,
            savefiles: self.savefiles@,
            openfile_casefolder: self.openfile_casefolder@,
        }
    }
}

impl ProtalConfig {
    /// An exact copy of this record.
    pub fn duplicate(&self) -> (r: Self)
        ensures
            r == *self,
    {
        ProtalConfig {
            savefile: self.savefile.duplicate(),
            openfile: self.openfile.duplicate(),
            savefiles: self.savefiles.duplicate(),
            openfile_casefolder: self.openfile_casefolder.duplicate(),
        }
    }
}

/// The backend a textual name selects: the recognized names map to their
/// tags, anything else becomes `Other` carrying the name verbatim. No
/// name is ever rejected.
pub open spec fn select_of_name(s: Seq<char>) -> SelectView {
    if s == "Gnome"@ {
        SelectView::Gnome
    } else if s == "Kde"@ {
        SelectView::Kde
    } else if s == "Lxqt"@ {
        SelectView::Lxqt
    } else if s == "Gtk"@ {
        SelectView::Gtk
    } else {
        SelectView::Other(s)
    }
}

impl From<String> for PortalSelect {
    /// The permissive name mapping: the four recognized names select
    /// their tags, anything else selects `Other` with the name verbatim.
    fn from(value: String) -> (r: Self) {
        if str_eq(value.as_str(), "Gnome") {
            PortalSelect::Gnome
        } else if str_eq(value.as_str(), "Kde") {
            PortalSelect::Kde
        } else if str_eq(value.as_str(), "Lxqt") {
            PortalSelect::Lxqt
        } else if str_eq(value.as_str(), "Gtk") {
            PortalSelect::Gtk
        } else {
            PortalSelect::Other(value)
        }
    }
}

impl vstd::std_specs::convert::FromSpecImpl<String> for PortalSelect {
    open spec fn obeys_from_spec() -> bool {
        true
    }

    open spec fn from_spec(v: String) -> Self {
        if v@ == "Gnome"@ {
            PortalSelect::Gnome
        } else if v@ == "Kde"@ {
            PortalSelect::Kde
        } else if v@ == "Lxqt"@ {
            PortalSelect::Lxqt
        } else if v@ == "Gtk"@ {
            PortalSelect::Gtk
        } else {
            PortalSelect::Other(v)
        }
    }
}

/// The neutral default selection, used whenever no configuration value
/// decides: the GTK backend.
pub open spec fn default_select() -> SelectView {
    SelectView::Gtk
}

/// The record that a raw configuration (or its absence) resolves to:
/// - no configuration: the neutral default for all four fields;
/// - `save_files` absent: the neutral default;
/// - the directory-open override absent: `open_file`'s resolved value.
pub open spec fn record_of(c: Option<ConfigView>) -> RecordView {
    match c {
        Option::None => RecordView {
            savefile: default_select(),
            openfile: default_select(),
            savefiles: default_select(),
            openfile_casefolder: default_select(),
        },
        Option::Some(c) => RecordView {
            savefile: select_of_name(c.save_file),
            openfile: select_of_name(c.open_file),
            savefiles: match c.save_files {
                Option::None => default_select(),
                Option::Some(s) => select_of_name(s),
            },
            openfile_casefolder: match c.tips {
                Option::None => select_of_name(c.open_file),
                Option::Some(t) => select_of_name(t.open_file_when_folder),
            },
        },
    }
}

impl ProtalConfig {
    /// Resolve a raw configuration (or its absence) into a fully
    /// populated record: every absence is settled here, never at call
    /// time.
    pub fn from_config(value: Option<Config>) -> (r: ProtalConfig)
        ensures
            r@ == record_of(
                match value {
                    Option::None => Option::None,
                    Option::Some(c) => Option::Some(c@),
                },
            ),
    {
        match value {
            None => ProtalConfig {
                savefile: PortalSelect::Gtk,
                openfile: PortalSelect::Gtk,
                savefiles: PortalSelect::Gtk,
                openfile_casefolder: PortalSelect::Gtk,
            },
            Some(value) => {
                let Config { open_file, save_file, save_files, tips } = value;
                let openfile_casefolder = match tips {
                    None => PortalSelect::from(open_file.clone()),
                    Some(t) => PortalSelect::from(t.open_file_when_folder),
                };
                ProtalConfig {
                    savefile: PortalSelect::from(save_file),
                    openfile: PortalSelect::from(open_file),
                    savefiles: match save_files {
                        None => PortalSelect::Gtk,
                        Some(s) => PortalSelect::from(s),
                    },
                    openfile_casefolder,
                }
            },
        }
    }

    /// The total load step: given the configuration file's text — or
    /// nothing, when the file is absent or unreadable — yield the record
    /// to publish. It never fails outward.
    pub fn load(source: Option<&str>) -> (r: ProtalConfig)
        ensures
            r@ == record_of(
                match source {
                    Option::None => Option::None,
                    Option::Some(s) => parse_doc(s@),
                },
            ),
    {
        match source {
            None => ProtalConfig::from_config(None),
            Some(text) => ProtalConfig::from_config(Config::from_text(text)),
        }
    }
}

} // verus!
