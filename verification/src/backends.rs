//! Backend selection: the closed set of known file-chooser backends and
//! the pure mapping from a selection to its well-known bus name.

use vstd::prelude::*;

verus! {

/// The backend chosen to handle one file-chooser operation. `Other`
/// carries an arbitrary well-known bus name verbatim, for backends the
/// library does not know by name.
#[derive(Debug, PartialEq, Eq)]
pub enum PortalSelect {
    Kde,
    Gnome,
    Lxqt,
    Gtk,
    Other(String),
}

/// The mathematical value of a `PortalSelect`: the same tags, with the
/// carried bus name as a sequence of characters.
pub enum SelectView {
    Kde,
    Gnome,
    Lxqt,
    Gtk,
    Other(Seq<char>),
}

impl View for PortalSelect {
    type V = SelectView;

    open spec fn view(&self) -> SelectView {
        match self {
            PortalSelect::Kde => SelectView::Kde,
            PortalSelect::Gnome => SelectView::Gnome,
            PortalSelect::Lxqt => SelectView::Lxqt,
            PortalSelect::Gtk => SelectView::Gtk,
            PortalSelect::Other(name) => SelectView::Other(name@),
        }
    }
}

/// The well-known bus name a selection resolves to; `Other` returns its
/// carried string unchanged.
pub open spec fn service_name_of(s: SelectView) -> Seq<char> {
    match s {
        SelectView::Kde => "org.freedesktop.impl.portal.desktop.kde"@,
        SelectView::Gnome => "org.gnome.Nautilus"@,
        SelectView::Lxqt => "org.freedesktop.impl.portal.desktop.lxqt"@,
        SelectView::Gtk => "org.freedesktop.impl.portal.desktop.gtk"@,
        SelectView::Other(name) => name,
    }
}

impl PortalSelect {
    /// The well-known bus name this selection dispatches to.
    pub fn service_path(&self) -> (r: &str)
        ensures
            r@ == service_name_of(self@),
    {
        match self {
            PortalSelect::Kde => "org.freedesktop.impl.portal.desktop.kde",
            PortalSelect::Gnome => "org.gnome.Nautilus",
            PortalSelect::Lxqt => "org.freedesktop.impl.portal.desktop.lxqt",
            PortalSelect::Gtk => "org.freedesktop.impl.portal.desktop.gtk",
            PortalSelect::Other(path) => path.as_str(),
        }
    }

    /// An exact copy of this selection.
    pub fn duplicate(&self) -> (r: Self)
        ensures
            r == *self,
    {
        match self {
            PortalSelect::Kde => PortalSelect::Kde,
            PortalSelect::Gnome => PortalSelect::Gnome,
            PortalSelect::Lxqt => PortalSelect::Lxqt,
            PortalSelect::Gtk => PortalSelect::Gtk,
            PortalSelect::Other(path) => PortalSelect::Other(path.clone()),
        }
    }
}

} // verus!
