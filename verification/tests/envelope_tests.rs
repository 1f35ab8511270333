use shana_portal::protaltypes::{
    Choice, FileFilter, FilePath, FilterType, OpenFileOptions, SelectFunction,
};

fn open_options() -> OpenFileOptions {
    OpenFileOptions {
        accept_label: None,
        modal: None,
        multiple: None,
        directory: None,
        filters: None,
        current_filter: None,
        choices: None,
        current_folder: None,
    }
}

#[test]
fn filter_builder_and_getters() {
    let f = FileFilter::new("Images").mimetype("image/png").glob("*.jpg").mimetype("image/gif");
    assert_eq!(f.title(), "Images");
    assert_eq!(f.label(), "Images");
    assert_eq!(
        f.get_filters(),
        &[
            (FilterType::MimeType, String::from("image/png")),
            (FilterType::GlobPattern, String::from("*.jpg")),
            (FilterType::MimeType, String::from("image/gif")),
        ]
    );
    assert_eq!(f.mimetype_filters(), vec!["image/png", "image/gif"]);
    assert_eq!(f.pattern_filters(), vec!["*.jpg"]);
}

#[test]
fn filter_type_predicates() {
    assert!(FilterType::MimeType.is_mimetype());
    assert!(!FilterType::MimeType.is_pattern());
    assert!(FilterType::GlobPattern.is_pattern());
    assert!(!FilterType::GlobPattern.is_mimetype());
}

#[test]
fn filter_default_shows_every_file() {
    let f = FileFilter::default();
    assert_eq!(f.title(), "All files: (*)");
    assert!(f.get_filters().is_empty());
}

#[test]
fn filter_display_text() {
    let f = FileFilter::new("Images").mimetype("image/png").glob("*.jpg");
    assert_eq!(f.display_text(), "Images : image/png *.jpg");
}

#[test]
fn choice_builder_and_getters() {
    let c = Choice::new("layout", "Page layout", "portrait")
        .insert("portrait", "Portrait")
        .insert("landscape", "Landscape");
    assert_eq!(c.id(), "layout");
    assert_eq!(c.label(), "Page layout");
    assert_eq!(c.initial_selection(), "portrait");
    assert_eq!(
        c.pairs(),
        vec![("portrait", "Portrait"), ("landscape", "Landscape")]
    );
}

#[test]
fn boolean_choice_encodes_its_state() {
    assert_eq!(Choice::boolean("hidden", "Show hidden", true).initial_selection(), "true");
    assert_eq!(Choice::boolean("hidden", "Show hidden", false).initial_selection(), "false");
}

#[test]
fn file_path_accepts_exactly_nul_terminated_names() {
    let good = FilePath::from_bytes_with_nul(vec![b'/', b't', b'm', b'p', 0]).unwrap();
    assert_eq!(good.as_bytes(), b"/tmp");
    assert_eq!(good.bytes_with_nul(), vec![b'/', b't', b'm', b'p', 0]);
    assert!(FilePath::from_bytes_with_nul(vec![]).is_none());
    assert!(FilePath::from_bytes_with_nul(vec![b'/', b't']).is_none());
    assert!(FilePath::from_bytes_with_nul(vec![b'/', 0, b't', 0]).is_none());
}

#[test]
fn select_function_honours_the_directory_flag() {
    let mut opts = open_options();
    opts.directory = Some(true);
    match opts.select_function() {
        SelectFunction::Folder { title, filters, current_filter } => {
            assert_eq!(title, "OpenFold");
            assert!(filters.is_empty());
            assert!(current_filter.is_none());
        }
        SelectFunction::File { .. } => panic!("directory flag must select a folder chooser"),
    }
    opts.directory = Some(false);
    match opts.select_function() {
        SelectFunction::File { title, .. } => assert_eq!(title, "OpenFile"),
        SelectFunction::Folder { .. } => panic!("no directory flag must select a file chooser"),
    }
}

#[test]
fn select_function_keeps_label_and_filters() {
    let mut opts = open_options();
    opts.accept_label = Some(String::from("Pick an image"));
    opts.filters = Some(vec![FileFilter::new("Images").mimetype("image/png")]);
    opts.current_filter = Some(FileFilter::new("Images").mimetype("image/png"));
    match opts.select_function() {
        SelectFunction::File { title, filters, current_filter } => {
            assert_eq!(title, "Pick an image");
            assert_eq!(filters.len(), 1);
            assert_eq!(filters[0].title(), "Images");
            assert_eq!(filters[0].mimetype_filters(), vec!["image/png"]);
            assert_eq!(current_filter.unwrap().title(), "Images");
        }
        SelectFunction::Folder { .. } => panic!("no directory flag must select a file chooser"),
    }
}
