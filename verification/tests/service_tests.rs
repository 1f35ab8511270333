use shana_portal::backends::PortalSelect;
use shana_portal::config::ProtalConfig;
use shana_portal::protaltypes::OpenFileOptions;
use shana_portal::store::ConfigStore;
use shana_portal::watch::{handle_event, WatchEventKind};

fn options_with_directory(directory: Option<bool>) -> OpenFileOptions {
    OpenFileOptions {
        accept_label: None,
        modal: None,
        multiple: None,
        directory,
        filters: None,
        current_filter: None,
        choices: None,
        current_folder: None,
    }
}

fn sample_record() -> ProtalConfig {
    ProtalConfig {
        savefile: PortalSelect::Gnome,
        openfile: PortalSelect::Kde,
        savefiles: PortalSelect::Gtk,
        openfile_casefolder: PortalSelect::Lxqt,
    }
}

/// A stand-in backend that records nothing but the well-known name it
/// was addressed as.
struct RecordingBackend {
    addressed_as: Vec<String>,
}

impl RecordingBackend {
    fn new() -> Self {
        RecordingBackend {
            addressed_as: Vec::new(),
        }
    }

    fn receive(&mut self, destination: &str) {
        self.addressed_as.push(String::from(destination));
    }
}

#[test]
fn well_known_names_per_tag() {
    assert_eq!(
        PortalSelect::Kde.service_path(),
        "org.freedesktop.impl.portal.desktop.kde"
    );
    assert_eq!(PortalSelect::Gnome.service_path(), "org.gnome.Nautilus");
    assert_eq!(
        PortalSelect::Lxqt.service_path(),
        "org.freedesktop.impl.portal.desktop.lxqt"
    );
    assert_eq!(
        PortalSelect::Gtk.service_path(),
        "org.freedesktop.impl.portal.desktop.gtk"
    );
    assert_eq!(
        PortalSelect::Other(String::from("org.example.chooser")).service_path(),
        "org.example.chooser"
    );
}

#[test]
fn open_with_directory_flag_dispatches_to_the_override() {
    let record = sample_record();
    let mut backend = RecordingBackend::new();
    backend.receive(record.open_file_destination(&options_with_directory(Some(true))));
    assert_eq!(
        backend.addressed_as,
        vec![String::from("org.freedesktop.impl.portal.desktop.lxqt")]
    );
}

#[test]
fn open_without_directory_flag_dispatches_to_open_file() {
    let record = sample_record();
    let mut backend = RecordingBackend::new();
    backend.receive(record.open_file_destination(&options_with_directory(None)));
    backend.receive(record.open_file_destination(&options_with_directory(Some(false))));
    assert_eq!(
        backend.addressed_as,
        vec![
            String::from("org.freedesktop.impl.portal.desktop.kde"),
            String::from("org.freedesktop.impl.portal.desktop.kde"),
        ]
    );
}

#[test]
fn save_operations_use_their_own_fields() {
    let record = sample_record();
    assert_eq!(record.save_file_backend(), &PortalSelect::Gnome);
    assert_eq!(record.save_file_destination(), "org.gnome.Nautilus");
    assert_eq!(record.save_files_backend(), &PortalSelect::Gtk);
    assert_eq!(
        record.save_files_destination(),
        "org.freedesktop.impl.portal.desktop.gtk"
    );
}

#[test]
fn snapshot_is_idempotent() {
    let store = ConfigStore::new(sample_record());
    let first = store.snapshot();
    let second = store.snapshot();
    assert_eq!(first, second);
}

#[test]
fn replace_is_seen_by_the_next_snapshot() {
    let mut store = ConfigStore::new(sample_record());
    let next = ProtalConfig {
        savefile: PortalSelect::Kde,
        openfile: PortalSelect::Gnome,
        savefiles: PortalSelect::Kde,
        openfile_casefolder: PortalSelect::Gnome,
    };
    store.replace(next);
    assert_eq!(store.snapshot().openfile, PortalSelect::Gnome);
}

#[test]
fn reload_event_changes_the_next_call_not_the_one_in_flight() {
    let mut store = ConfigStore::new(ProtalConfig::load(Some(
        "open_file = \"Kde\"\nsave_file = \"Gnome\"\n",
    )));
    // A call begins: it takes its snapshot.
    let in_flight = store.snapshot();
    // The file changes and a modify event arrives with the new text.
    handle_event(
        &mut store,
        &WatchEventKind::Modify,
        Some("open_file = \"Lxqt\"\nsave_file = \"Gnome\"\n"),
    );
    // The call in flight keeps the selection it already read.
    let opts = options_with_directory(None);
    assert_eq!(
        in_flight.open_file_destination(&opts),
        "org.freedesktop.impl.portal.desktop.kde"
    );
    // The next call reads the store afresh and sees the new selection.
    let next_call = store.snapshot();
    assert_eq!(
        next_call.open_file_destination(&opts),
        "org.freedesktop.impl.portal.desktop.lxqt"
    );
}

#[test]
fn non_reload_events_leave_the_store_alone() {
    let mut store = ConfigStore::new(sample_record());
    handle_event(
        &mut store,
        &WatchEventKind::Remove,
        Some("open_file = \"Gnome\"\nsave_file = \"Gnome\"\n"),
    );
    handle_event(&mut store, &WatchEventKind::Access, None);
    handle_event(&mut store, &WatchEventKind::Any, None);
    handle_event(&mut store, &WatchEventKind::Other, None);
    assert_eq!(store.snapshot(), sample_record());
}

#[test]
fn reload_event_with_unreadable_file_publishes_the_default() {
    let mut store = ConfigStore::new(sample_record());
    handle_event(&mut store, &WatchEventKind::Create, None);
    assert_eq!(store.snapshot(), ProtalConfig::load(None));
}
