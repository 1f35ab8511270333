use shana_portal::backends::PortalSelect;
use shana_portal::config::{Config, ProtalConfig, Tips};

fn record(text: &str) -> ProtalConfig {
    ProtalConfig::load(Some(text))
}

#[test]
fn tst_toml() {
    let config_src1 = "open_file = \"Kde\"\nsave_file = \"Gnome\"\nsave_files = \"Gtk\"\n[tips]\nopen_file_when_folder = \"Lxqt\"\n";
    let config1 = ProtalConfig::from_config(Config::from_text(config_src1));
    assert_eq!(
        config1,
        ProtalConfig {
            openfile: PortalSelect::Kde,
            savefile: PortalSelect::Gnome,
            savefiles: PortalSelect::Gtk,
            openfile_casefolder: PortalSelect::Lxqt,
        }
    );
    let config_src2 = "open_file = \"Kde\"\nsave_file = \"Gnome\"\nsave_files = \"Gtk\"\n";
    let config2 = ProtalConfig::from_config(Config::from_text(config_src2));
    assert_eq!(
        config2,
        ProtalConfig {
            openfile: PortalSelect::Kde,
            savefile: PortalSelect::Gnome,
            savefiles: PortalSelect::Gtk,
            openfile_casefolder: PortalSelect::Kde,
        }
    );
}

#[test]
fn absent_config_yields_neutral_default() {
    let record = ProtalConfig::load(None);
    assert_eq!(
        record,
        ProtalConfig {
            savefile: PortalSelect::Gtk,
            openfile: PortalSelect::Gtk,
            savefiles: PortalSelect::Gtk,
            openfile_casefolder: PortalSelect::Gtk,
        }
    );
}

#[test]
fn empty_config_yields_neutral_default() {
    assert_eq!(record(""), ProtalConfig::load(None));
}

#[test]
fn garbage_config_yields_neutral_default() {
    // A malformed document never fails outward: it resolves to the
    // neutral default record.
    assert_eq!(record("this is not an assignment"), ProtalConfig::load(None));
    assert_eq!(record("open_file = unquoted"), ProtalConfig::load(None));
    assert_eq!(record("[tips\nopen_file = \"Kde\""), ProtalConfig::load(None));
}

#[test]
fn missing_required_field_yields_neutral_default() {
    // `save_file` is required; without it the document is unreadable.
    assert_eq!(record("open_file = \"Kde\"\n"), ProtalConfig::load(None));
}

#[test]
fn directory_override_falls_back_to_open_file() {
    let r = record("open_file = \"Kde\"\nsave_file = \"Gnome\"\n");
    assert_eq!(r.openfile, PortalSelect::Kde);
    assert_eq!(r.savefile, PortalSelect::Gnome);
    assert_eq!(r.openfile_casefolder, PortalSelect::Kde);
    assert_eq!(r.savefiles, PortalSelect::Gtk);
}

#[test]
fn directory_override_is_independent_when_present() {
    let r = record(
        "open_file = \"Kde\"\nsave_file = \"Gnome\"\n[tips]\nopen_file_when_folder = \"Lxqt\"\n",
    );
    assert_eq!(r.openfile, PortalSelect::Kde);
    assert_eq!(r.openfile_casefolder, PortalSelect::Lxqt);
}

#[test]
fn unknown_name_resolves_to_other_verbatim() {
    let r = record("open_file = \"my.own.portal\"\nsave_file = \"GNOME\"\n");
    assert_eq!(
        r.openfile,
        PortalSelect::Other(String::from("my.own.portal"))
    );
    // The mapping is case-sensitive: only the exact spellings are
    // recognized.
    assert_eq!(r.savefile, PortalSelect::Other(String::from("GNOME")));
}

#[test]
fn quoted_values_are_taken_verbatim() {
    // Spaces, `=` and `#` inside the quotes belong to the name.
    let r = record("open_file = \"a = b # c\"\nsave_file = \"Gnome\"\n");
    assert_eq!(r.openfile, PortalSelect::Other(String::from("a = b # c")));
}

#[test]
fn empty_name_resolves_to_other_verbatim() {
    let r = record("open_file = \"\"\nsave_file = \"Gnome\"\n");
    assert_eq!(r.openfile, PortalSelect::Other(String::new()));
}

#[test]
fn round_trip_of_all_recognized_names() {
    let names = ["Gnome", "Kde", "Lxqt", "Gtk", "Native", "weird one"];
    let expected = [
        PortalSelect::Gnome,
        PortalSelect::Kde,
        PortalSelect::Lxqt,
        PortalSelect::Gtk,
        PortalSelect::Other(String::from("Native")),
        PortalSelect::Other(String::from("weird one")),
    ];
    for (name, want) in names.iter().zip(expected.iter()) {
        let text = format!(
            "open_file = \"{}\"\nsave_file = \"{}\"\nsave_files = \"{}\"\n[tips]\nopen_file_when_folder = \"{}\"\n",
            name, name, name, name
        );
        let r = record(&text);
        assert_eq!(&r.openfile, want);
        assert_eq!(&r.savefile, want);
        assert_eq!(&r.savefiles, want);
        assert_eq!(&r.openfile_casefolder, want);
    }
}

#[test]
fn native_selection_is_its_own_tag_nowhere() {
    // "Native" is not one of the recognized spellings of this mapping's
    // closed tags; it rides through `Other`, like any other name.
    let r = record("open_file = \"Native\"\nsave_file = \"Gnome\"\n");
    assert_eq!(r.openfile, PortalSelect::Other(String::from("Native")));
}

#[test]
fn comments_blank_lines_and_spacing_are_tolerated() {
    let text = "# the chooser setup\n\n  open_file   =   \"Kde\"  \nsave_file = \"Gnome\"\n\n# done\n";
    let r = record(text);
    assert_eq!(r.openfile, PortalSelect::Kde);
    assert_eq!(r.savefile, PortalSelect::Gnome);
}

#[test]
fn crlf_line_endings_are_tolerated() {
    let text = "open_file = \"Kde\"\r\nsave_file = \"Gnome\"\r\n";
    let r = record(text);
    assert_eq!(r.openfile, PortalSelect::Kde);
    assert_eq!(r.savefile, PortalSelect::Gnome);
}

#[test]
fn unknown_keys_and_sections_are_ignored() {
    let text = "open_file = \"Kde\"\nsave_file = \"Gnome\"\ncolor = \"blue\"\n[future]\nmode = \"fast\"\n";
    let r = record(text);
    assert_eq!(r.openfile, PortalSelect::Kde);
    assert_eq!(r.savefile, PortalSelect::Gnome);
}

#[test]
fn repeated_known_key_makes_the_document_unreadable() {
    let text = "open_file = \"Kde\"\nopen_file = \"Gnome\"\nsave_file = \"Gnome\"\n";
    assert_eq!(record(text), ProtalConfig::load(None));
}

#[test]
fn tips_section_without_its_key_makes_the_document_unreadable() {
    let text = "open_file = \"Kde\"\nsave_file = \"Gnome\"\n[tips]\n";
    assert_eq!(record(text), ProtalConfig::load(None));
}

#[test]
fn from_text_exposes_the_raw_fields() {
    let text = "open_file = \"Kde\"\nsave_file = \"Gnome\"\n[tips]\nopen_file_when_folder = \"Lxqt\"\n";
    let c = Config::from_text(text).unwrap();
    assert_eq!(
        c,
        Config {
            open_file: String::from("Kde"),
            save_file: String::from("Gnome"),
            save_files: None,
            tips: Some(Tips {
                open_file_when_folder: String::from("Lxqt"),
            }),
        }
    );
}
