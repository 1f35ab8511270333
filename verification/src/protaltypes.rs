//! The operation envelopes: the option bundles a caller supplies with
//! each file-chooser call and the selected-files payload that comes
//! back. The dispatch engine forwards them unchanged; the only field it
//! ever reads is the directory flag of the open-file options.

use vstd::prelude::*;

verus! {

/// How one entry of a file filter matches: by glob pattern or by mime
/// type.
#[derive(Debug, Clone, Copy, PartialEq, Eq, Structural)]
pub enum FilterType {
    GlobPattern,
    MimeType,
}

impl FilterType {
    /// Whether it is a mime type filter.
    pub fn is_mimetype(&self) -> (r: bool)
        ensures
            r == (*self is MimeType),
    {
        matches!(self, FilterType::MimeType)
    }

    /// Whether it is a glob pattern type filter.
    pub fn is_pattern(&self) -> (r: bool)
        ensures
            r == (*self is GlobPattern),
    {
        matches!(self, FilterType::GlobPattern)
    }
}

/// A named file filter: a user-visible label and a list of glob or mime
/// entries.
#[derive(Debug, PartialEq, Eq)]
pub struct FileFilter(pub String, pub Vec<(FilterType, String)>);

/// The mathematical value of a `FileFilter`.
pub struct FileFilterView {
    pub title: Seq<char>,
    pub entries: Seq<(FilterType, Seq<char>)>,
}

/// Filter entries with their strings taken as character sequences.
pub open spec fn entries_view(s: Seq<(FilterType, String)>) -> Seq<(FilterType, Seq<char>)> {
    s.map_values(|p: (FilterType, String)| (p.0, p.1@))
}

impl View for FileFilter {
    type V = FileFilterView;

    open spec fn view(&self) -> FileFilterView {
        FileFilterView { title: self.0@, entries: entries_view(self.1@) }
    }
}

/// The entry strings of the given type, in order.
pub open spec fn names_of_type(
    entries: Seq<(FilterType, Seq<char>)>,
    t: FilterType,
    i: int,
) -> Seq<Seq<char>>
    decreases entries.len() - i,
{
    if i < 0 || i >= entries.len() {
        Seq::empty()
    } else if entries[i].0 == t {
        seq![entries[i].1] + names_of_type(entries, t, i + 1)
    } else {
        names_of_type(entries, t, i + 1)
    }
}

/// The entry strings from index `i` on, each preceded by one space.
pub open spec fn joined_names(entries: Seq<(FilterType, Seq<char>)>, i: int) -> Seq<char>
    decreases entries.len() - i,
{
    if i < 0 || i >= entries.len() {
        Seq::empty()
    } else {
        " "@ + entries[i].1 + joined_names(entries, i + 1)
    }
}

impl FileFilter {
    /// Create a new file filter with the given user-visible label and no
    /// entries yet.
    pub fn new(label: &str) -> (r: Self)
        ensures
            r@.title == label@,
            r@.entries == Seq::<(FilterType, Seq<char>)>::empty(),
    {
        let r = FileFilter(label.to_owned(), Vec::new());
        proof {
            assert(r@.entries =~= Seq::<(FilterType, Seq<char>)>::empty());
        }
        r
    }

    /// Adds a mime type to the file filter.
    #[must_use]
    pub fn mimetype(self, mimetype: &str) -> (r: Self)
        ensures
            r@.title == self@.title,
            r@.entries == self@.entries.push((FilterType::MimeType, mimetype@)),
    {
        let ghost before = self@.entries;
        let FileFilter(title, mut entries) = self;
        entries.push((FilterType::MimeType, mimetype.to_owned()));
        let r = FileFilter(title, entries);
        proof {
            assert(r@.entries =~= before.push((FilterType::MimeType, mimetype@)));
        }
        r
    }

    /// Adds a glob pattern to the file filter.
    #[must_use]
    pub fn glob(self, pattern: &str) -> (r: Self)
        ensures
            r@.title == self@.title,
            r@.entries == self@.entries.push((FilterType::GlobPattern, pattern@)),
    {
        let ghost before = self@.entries;
        let FileFilter(title, mut entries) = self;
        entries.push((FilterType::GlobPattern, pattern.to_owned()));
        let r = FileFilter(title, entries);
        proof {
            assert(r@.entries =~= before.push((FilterType::GlobPattern, pattern@)));
        }
        r
    }

    /// The user-visible name of the filter.
    pub fn title(&self) -> (r: &str)
        ensures
            r@ == self@.title,
    {
        self.0.as_str()
    }

    /// The label of the filter.
    pub fn label(&self) -> (r: &str)
        ensures
            r@ == self@.title,
    {
        self.0.as_str()
    }

    /// All entries, as they were added.
    pub fn get_filters(&self) -> (r: &[(FilterType, String)])
        ensures
            entries_view(r@) == self@.entries,
    {
        self.1.as_slice()
    }

    /// The strings of all entries of the given type, in order.
    fn names_matching(&self, t: FilterType) -> (r: Vec<&str>)
        ensures
            r@.len() == names_of_type(self@.entries, t, 0).len(),
            forall|k: int|
                0 <= k < r@.len() ==> r@[k]@ == names_of_type(self@.entries, t, 0)[k],
    {
        let ghost all = names_of_type(self@.entries, t, 0);
        let mut r: Vec<&str> = Vec::new();
        let ghost done = Seq::<Seq<char>>::empty();
        let n = self.1.len();
        let mut i: usize = 0;
        while i < n
            invariant
                n == self.1.len(),
                i <= n,
                all == names_of_type(self@.entries, t, 0),
                done + names_of_type(self@.entries, t, i as int) == all,
                r@.len() == done.len(),
                forall|k: int| 0 <= k < r@.len() ==> r@[k]@ == done[k],
            decreases n - i,
        {
            let ghost prev = done;
            if self.1[i].0 == t {
                r.push(self.1[i].1.as_str());
                proof {
                    done = done.push(self@.entries[i as int].1);
                    assert(done + names_of_type(self@.entries, t, i + 1) =~= prev
                        + names_of_type(self@.entries, t, i as int));
                }
            } else {
                proof {
                    assert(names_of_type(self@.entries, t, i + 1) == names_of_type(
                        self@.entries,
                        t,
                        i as int,
                    ));
                }
            }
            i = i + 1;
        }
        proof {
            assert(done + names_of_type(self@.entries, t, n as int) =~= done);
        }
        r
    }

    /// List of mime type filter strings.
    pub fn mimetype_filters(&self) -> (r: Vec<&str>)
        ensures
            r@.len() == names_of_type(self@.entries, FilterType::MimeType, 0).len(),
            forall|k: int|
                0 <= k < r@.len() ==> r@[k]@ == names_of_type(
                    self@.entries,
                    FilterType::MimeType,
                    0,
                )[k],
    {
        self.names_matching(FilterType::MimeType)
    }

    /// List of glob pattern filter strings.
    pub fn pattern_filters(&self) -> (r: Vec<&str>)
        ensures
            r@.len() == names_of_type(self@.entries, FilterType::GlobPattern, 0).len(),
            forall|k: int|
                0 <= k < r@.len() ==> r@[k]@ == names_of_type(
                    self@.entries,
                    FilterType::GlobPattern,
                    0,
                )[k],
    {
        self.names_matching(FilterType::GlobPattern)
    }

    /// The filter's one-line description: the title, a colon, then each
    /// entry string preceded by a space.
    pub fn display_text(&self) -> (r: String)
        ensures
            r@ == self@.title + " :"@ + joined_names(self@.entries, 0),
    {
        let ghost goal = self@.title + " :"@ + joined_names(self@.entries, 0);
        let mut out = String::from_str(self.0.as_str());
        out.append(" :");
        let n = self.1.len();
        let mut i: usize = 0;
        while i < n
            invariant
                n == self.1@.len(),
                i <= n,
                goal == self@.title + " :"@ + joined_names(self@.entries, 0),
                out@ + joined_names(self@.entries, i as int) == goal,
            decreases n - i,
        {
            let ghost before = out@;
            out.append(" ");
            out.append(self.1[i].1.as_str());
            proof {
                assert(out@ + joined_names(self@.entries, i + 1) =~= before + joined_names(
                    self@.entries,
                    i as int,
                ));
            }
            i = i + 1;
        }
        proof {
            assert(out@ + joined_names(self@.entries, n as int) =~= out@);
        }
        out
    }

    /// An exact copy, field for field.
    pub fn duplicate(&self) -> (r: Self)
        ensures
            r@ == self@,
    {
        let mut entries: Vec<(FilterType, String)> = Vec::new();
        let n = self.1.len();
        let mut i: usize = 0;
        while i < n
            invariant
                n == self.1.len(),
                i <= n,
                entries@.len() == i,
                forall|k: int|
                    0 <= k < i ==> entries@[k].0 == self.1@[k].0 && entries@[k].1@
                        == self.1@[k].1@,
            decreases n - i,
        {
            entries.push((self.1[i].0, self.1[i].1.clone()));
            i = i + 1;
        }
        let r = FileFilter(self.0.clone(), entries);
        proof {
            assert(r@.entries =~= self@.entries);
        }
        r
    }
}

impl Default for FileFilter {
    /// The filter that shows every file.
    fn default() -> (r: Self)
        ensures
            r@.title == "All files: (*)"@,
            r@.entries == Seq::<(FilterType, Seq<char>)>::empty(),
    {
        FileFilter::new("All files: (*)")
    }
}

/// Presents the user with a choice to select from or as a checkbox:
/// a unique id, a user-visible label, optional (key, value) entries,
/// and the initially selected value.
#[derive(Debug, PartialEq, Eq)]
pub struct Choice(pub String, pub String, pub Vec<(String, String)>, pub String);

/// The mathematical value of a `Choice`.
pub struct ChoiceView {
    pub id: Seq<char>,
    pub label: Seq<char>,
    pub pairs: Seq<(Seq<char>, Seq<char>)>,
    pub initial: Seq<char>,
}

/// Choice entries with their strings taken as character sequences.
pub open spec fn pairs_view(s: Seq<(String, String)>) -> Seq<(Seq<char>, Seq<char>)> {
    s.map_values(|p: (String, String)| (p.0@, p.1@))
}

impl View for Choice {
    type V = ChoiceView;

    open spec fn view(&self) -> ChoiceView {
        ChoiceView { id: self.0@, label: self.1@, pairs: pairs_view(self.2@), initial: self.3@ }
    }
}

impl Choice {
    /// Creates a new choice from its id, its label and the initially
    /// selected value.
    pub fn new(id: &str, label: &str, initial_selection: &str) -> (r: Self)
        ensures
            r@.id == id@,
            r@.label == label@,
            r@.pairs == Seq::<(Seq<char>, Seq<char>)>::empty(),
            r@.initial == initial_selection@,
    {
        let r = Choice(id.to_owned(), label.to_owned(), Vec::new(), initial_selection.to_owned());
        proof {
            assert(r@.pairs =~= Seq::<(Seq<char>, Seq<char>)>::empty());
        }
        r
    }

    /// Creates a checkbox choice: the initial value is the textual form
    /// of the given state.
    pub fn boolean(id: &str, label: &str, state: bool) -> (r: Self)
        ensures
            r@.id == id@,
            r@.label == label@,
            r@.pairs == Seq::<(Seq<char>, Seq<char>)>::empty(),
            r@.initial == if state {
                "true"@
            } else {
                "false"@
            },
    {
        if state {
            Choice::new(id, label, "true")
        } else {
            Choice::new(id, label, "false")
        }
    }

    /// Adds a (key, value) entry to the choice.
    #[must_use]
    pub fn insert(self, key: &str, value: &str) -> (r: Self)
        ensures
            r@.id == self@.id,
            r@.label == self@.label,
            r@.initial == self@.initial,
            r@.pairs == self@.pairs.push((key@, value@)),
    {
        let ghost before = self@.pairs;
        let Choice(id, label, mut pairs, initial) = self;
        pairs.push((key.to_owned(), value.to_owned()));
        let r = Choice(id, label, pairs, initial);
        proof {
            assert(r@.pairs =~= before.push((key@, value@)));
        }
        r
    }

    /// The choice's unique id.
    pub fn id(&self) -> (r: &str)
        ensures
            r@ == self@.id,
    {
        self.0.as_str()
    }

    /// The user-visible label of the choice.
    pub fn label(&self) -> (r: &str)
        ensures
            r@ == self@.label,
    {
        self.1.as_str()
    }

    /// The (key, value) entries of the choice, in order.
    pub fn pairs(&self) -> (r: Vec<(&str, &str)>)
        ensures
            r@.len() == self@.pairs.len(),
            forall|k: int|
                0 <= k < r@.len() ==> r@[k].0@ == self@.pairs[k].0 && r@[k].1@
                    == self@.pairs[k].1,
    {
        let mut r: Vec<(&str, &str)> = Vec::new();
        let n = self.2.len();
        let mut i: usize = 0;
        while i < n
            invariant
                n == self.2.len(),
                i <= n,
                r@.len() == i,
                forall|k: int|
                    0 <= k < i ==> r@[k].0@ == self@.pairs[k].0 && r@[k].1@ == self@.pairs[k].1,
            decreases n - i,
        {
            r.push((self.2[i].0.as_str(), self.2[i].1.as_str()));
            i = i + 1;
        }
        r
    }

    /// The initially selected value.
    pub fn initial_selection(&self) -> (r: &str)
        ensures
            r@ == self@.initial,
    {
        self.3.as_str()
    }
}

/// A file name carried on the wire as a nul-terminated byte array. The
/// held bytes are the name without its terminator and contain no nul.
#[derive(Debug, PartialEq, Eq)]
pub struct FilePath(Vec<u8>);

impl View for FilePath {
    type V = Seq<u8>;

    closed spec fn view(&self) -> Seq<u8> {
        self.0@
    }
}

impl FilePath {
    /// The held bytes contain no nul byte.
    pub open spec fn wf(&self) -> bool {
        forall|k: int| 0 <= k < self@.len() ==> self@[k] != 0
    }

    /// Decode a wire value: accepted exactly when the bytes end with one
    /// nul and contain no other; the result is the bytes without it.
    pub fn from_bytes_with_nul(bytes: Vec<u8>) -> (r: Option<FilePath>)
        ensures
            match r {
                Option::Some(p) => bytes@.len() > 0 && bytes@.last() == 0 && p@
                    == bytes@.drop_last() && p.wf(),
                Option::None => bytes@.len() == 0 || bytes@.last() != 0 || exists|k: int|
                    0 <= k < bytes@.len() - 1 && bytes@[k] == 0,
            },
    {
        let n = bytes.len();
        if n == 0 {
            return None;
        }
        let mut k: usize = 0;
        while k < n - 1
            invariant
                1 <= n == bytes@.len(),
                k <= n - 1,
                forall|m: int| 0 <= m < k ==> bytes@[m] != 0,
            decreases n - k,
        {
            if bytes[k] == 0 {
                return None;
            }
            k = k + 1;
        }
        if bytes[n - 1] != 0 {
            return None;
        }
        let mut bytes = bytes;
        bytes.pop();
        Some(FilePath(bytes))
    }

    /// The name's bytes, without the terminator.
    pub fn as_bytes(&self) -> (r: &[u8])
        ensures
            r@ == self@,
    {
        self.0.as_slice()
    }

    /// The wire form: the name's bytes with one nul appended.
    pub fn bytes_with_nul(&self) -> (r: Vec<u8>)
        ensures
            r@ == self@.push(0),
    {
        let n = self.0.len();
        let mut r: Vec<u8> = Vec::new();
        let mut i: usize = 0;
        while i < n
            invariant
                n == self.0@.len(),
                i <= n,
                r@ =~= self.0@.subrange(0, i as int),
            decreases n - i,
        {
            r.push(self.0[i]);
            i = i + 1;
        }
        r.push(0);
        proof {
            assert(r@ =~= self@.push(0));
        }
        r
    }
}

/// The payload a chooser call returns: the selected URIs, the choices
/// the user made, the filter that was ultimately active, and (for open
/// calls) whether the selection is writable. The dispatch engine relays
/// it unchanged.
#[derive(Debug, PartialEq, Eq)]
pub struct SelectedFiles {
    pub uris: Vec<String>,
    pub choices: Option<Vec<(String, String)>>,
    pub current_filter: Option<FileFilter>,
    pub writable: Option<bool>,
}

/// The caller-supplied options of an open-file call. The engine reads
/// only `directory`; everything else is forwarded untouched.
#[derive(Debug, PartialEq, Eq)]
pub struct OpenFileOptions {
    pub accept_label: Option<String>,
    pub modal: Option<bool>,
    pub multiple: Option<bool>,
    pub directory: Option<bool>,
    pub filters: Option<Vec<FileFilter>>,
    pub current_filter: Option<FileFilter>,
    pub choices: Option<Vec<Choice>>,
    pub current_folder: Option<FilePath>,
}

/// Whether an open-file call asks for a directory: only an explicit
/// `true` does.
pub open spec fn wants_directory(directory: Option<bool>) -> bool {
    directory == Option::<bool>::Some(true)
}

/// The caller-supplied options of a save-file call; forwarded untouched.
#[derive(Debug, PartialEq, Eq)]
pub struct SaveFileOptions {
    pub accept_label: Option<String>,
    pub modal: Option<bool>,
    pub multiple: Option<bool>,
    pub filters: Vec<FileFilter>,
    pub current_filter: Option<FileFilter>,
    pub choices: Option<Vec<Choice>>,
    pub current_name: Option<String>,
    pub current_folder: Option<FilePath>,
    pub current_file: Option<FilePath>,
}

/// The caller-supplied options of a save-files call; forwarded
/// untouched.
#[derive(Debug, PartialEq, Eq)]
pub struct SaveFilesOptions {
    pub accept_label: Option<String>,
    pub modal: Option<bool>,
    pub choices: Option<Vec<Choice>>,
    pub current_folder: Option<FilePath>,
    pub files: Option<Vec<FilePath>>,
}

/// What a native chooser is asked to do for an open-file call: pick a
/// file or pick a folder, with the title and filters to show.
#[derive(Debug)]
pub enum SelectFunction {
    File { title: String, filters: Vec<FileFilter>, current_filter: Option<FileFilter> },
    Folder { title: String, filters: Vec<FileFilter>, current_filter: Option<FileFilter> },
}

/// The filter list of a `SelectFunction`, as mathematical values.
pub open spec fn filters_view(s: Seq<FileFilter>) -> Seq<FileFilterView> {
    s.map_values(|f: FileFilter| f@)
}

/// A copy of a filter list, filter for filter.
fn duplicate_filters(fs: &Vec<FileFilter>) -> (r: Vec<FileFilter>)
    ensures
        filters_view(r@) == filters_view(fs@),
{
    let n = fs.len();
    let mut r: Vec<FileFilter> = Vec::new();
    let mut i: usize = 0;
    while i < n
        invariant
            n == fs@.len(),
            i <= n,
            r@.len() == i,
            forall|k: int| 0 <= k < i ==> r@[k]@ == fs@[k]@,
        decreases n - i,
    {
        r.push(fs[i].duplicate());
        i = i + 1;
    }
    proof {
        assert(filters_view(r@) =~= filters_view(fs@));
    }
    r
}

impl OpenFileOptions {
    /// The request to put to a native chooser: a folder selection when
    /// the directory flag is set, a file selection otherwise, titled
    /// with the accept label or a fixed default, carrying the options'
    /// filters unchanged.
    pub fn select_function(&self) -> (r: SelectFunction)
        ensures
            (match r {
                SelectFunction::Folder { title, filters, current_filter } => {
                    &&& wants_directory(self.directory)
                    &&& title@ == (match self.accept_label {
                        Option::Some(l) => l@,
                        Option::None => "OpenFold"@,
                    })
                    &&& filters_view(filters@) == (match self.filters {
                        Option::Some(fs) => filters_view(fs@),
                        Option::None => Seq::<FileFilterView>::empty(),
                    })
                    &&& (match (current_filter, self.current_filter) {
                        (Option::Some(c), Option::Some(o)) => c@ == o@,
                        (Option::None, Option::None) => true,
                        _ => false,
                    })
                },
                SelectFunction::File { title, filters, current_filter } => {
                    &&& !wants_directory(self.directory)
                    &&& title@ == (match self.accept_label {
                        Option::Some(l) => l@,
                        Option::None => "OpenFile"@,
                    })
                    &&& filters_view(filters@) == (match self.filters {
                        Option::Some(fs) => filters_view(fs@),
                        Option::None => Seq::<FileFilterView>::empty(),
                    })
                    &&& (match (current_filter, self.current_filter) {
                        (Option::Some(c), Option::Some(o)) => c@ == o@,
                        (Option::None, Option::None) => true,
                        _ => false,
                    })
                },
            }),
    {
        let directory = match self.directory {
            Some(d) => d,
            None => false,
        };
        let title = match &self.accept_label {
            Some(l) => l.clone(),
            None => if directory {
                "OpenFold".to_owned()
            } else {
                "OpenFile".to_owned()
            },
        };
        let filters = match &self.filters {
            Some(fs) => duplicate_filters(fs),
            None => Vec::new(),
        };
        proof {
            if self.filters is None {
                assert(filters_view(Seq::<FileFilter>::empty())
                    =~= Seq::<FileFilterView>::empty());
            }
        }
        let current_filter = match &self.current_filter {
            Some(f) => Some(f.duplicate()),
            None => None,
        };
        if directory {
            SelectFunction::Folder { title, filters, current_filter }
        } else {
            SelectFunction::File { title, filters, current_filter }
        }
    }
}

} // verus!
