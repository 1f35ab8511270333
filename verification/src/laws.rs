//! The library-wide laws: what loading guarantees for every
//! configuration, proved once and for all inputs.

use vstd::prelude::*;

use crate::backends::SelectView;
use crate::config::{default_select, record_of, select_of_name, ConfigView, RecordView, TipsView};
use crate::parse::{
    apply_kv, apply_line, finish_state, init_state, is_ws, lemma_line_assignment,
    lemma_line_header_tips, lemma_run_first_line, parse_doc, render_assignment, run_lines,
    ParseStateView, Section,
};

verus! {

/// A backend name that can stand verbatim in the configuration file:
/// anything without a double quote or a line break.
pub open spec fn name_ok(s: Seq<char>) -> bool {
    forall|m: int| 0 <= m < s.len() ==> s[m] != '"' && s[m] != '\n'
}

/// The canonical text of a configuration file carrying the four given
/// backend names.
pub open spec fn render_config(a: Seq<char>, b: Seq<char>, c: Seq<char>, d: Seq<char>) -> Seq<
    char,
> {
    render_assignment("open_file"@, a) + "\n"@ + render_assignment("save_file"@, b) + "\n"@
        + render_assignment("save_files"@, c) + "\n"@ + "[tips]"@ + "\n"@ + render_assignment(
        "open_file_when_folder"@,
        d,
    ) + "\n"@
}

/// Writing four backend names to a configuration file and loading it
/// back reproduces exactly those selections — for the recognized names
/// and for arbitrary unrecognized ones, which come back as `Other`
/// verbatim. Every field of the loaded record is populated.
pub proof fn lemma_config_round_trip(a: Seq<char>, b: Seq<char>, c: Seq<char>, d: Seq<char>)
    requires
        name_ok(a),
        name_ok(b),
        name_ok(c),
        name_ok(d),
    ensures
        parse_doc(render_config(a, b, c, d)) == Option::Some(
            ConfigView {
                open_file: a,
                save_file: b,
                save_files: Option::Some(c),
                tips: Option::Some(TipsView { open_file_when_folder: d }),
            },
        ),
        record_of(parse_doc(render_config(a, b, c, d))) == (RecordView {
            savefile: select_of_name(b),
            openfile: select_of_name(a),
            savefiles: select_of_name(c),
            openfile_casefolder: select_of_name(d),
        }),
{
    reveal_strlit("open_file");
    reveal_strlit("save_file");
    reveal_strlit("save_files");
    reveal_strlit("open_file_when_folder");
    reveal_strlit("[tips]");
    reveal_strlit("\n");
    let k1 = "open_file"@;
    let k2 = "save_file"@;
    let k3 = "save_files"@;
    let k4 = "open_file_when_folder"@;
    let nl = "\n"@;
    assert(k1.len() == 9 && k2.len() == 9 && k3.len() == 10 && k4.len() == 21);
    assert(forall|m: int| 0 <= m < k1.len() ==> k1[m] != '=' && !is_ws(k1[m]) && k1[m] != '\n');
    assert(forall|m: int| 0 <= m < k2.len() ==> k2[m] != '=' && !is_ws(k2[m]) && k2[m] != '\n');
    assert(forall|m: int| 0 <= m < k3.len() ==> k3[m] != '=' && !is_ws(k3[m]) && k3[m] != '\n');
    assert(forall|m: int| 0 <= m < k4.len() ==> k4[m] != '=' && !is_ws(k4[m]) && k4[m] != '\n');
    assert(k1[0] == 'o' && k2[0] == 's' && k3[0] == 's' && k4[0] == 'o');
    // The keys are pairwise distinct where the parser compares them.
    assert(k2 != k1);
    assert(k3 != k1 && k3 != k2);
    let l1 = render_assignment(k1, a);
    let l2 = render_assignment(k2, b);
    let l3 = render_assignment(k3, c);
    let lh = "[tips]"@;
    let l4 = render_assignment(k4, d);
    let rest4 = l4 + nl + Seq::<char>::empty();
    let rest3 = lh + nl + rest4;
    let rest2 = l3 + nl + rest3;
    let rest1 = l2 + nl + rest2;
    let doc = l1 + nl + rest1;
    assert(render_config(a, b, c, d) =~= doc);
    let st0 = init_state();
    let st1 = ParseStateView { open_file: Option::Some(a), ..st0 };
    let st2 = ParseStateView { save_file: Option::Some(b), ..st1 };
    let st3 = ParseStateView { save_files: Option::Some(c), ..st2 };
    let st4 = ParseStateView { section: Section::Tips, tips_seen: true, ..st3 };
    let st5 = ParseStateView { tips_value: Option::Some(d), tips_seen: true, ..st4 };
    lemma_line_assignment(st0, k1, a);
    assert(apply_kv(st0, k1, a) == Option::Some(st1));
    lemma_run_first_line(l1, rest1, st0);
    lemma_line_assignment(st1, k2, b);
    assert(apply_kv(st1, k2, b) == Option::Some(st2));
    lemma_run_first_line(l2, rest2, st1);
    lemma_line_assignment(st2, k3, c);
    assert(apply_kv(st2, k3, c) == Option::Some(st3));
    lemma_run_first_line(l3, rest3, st2);
    lemma_line_header_tips(st3);
    assert(apply_line(st3, lh) == Option::Some(st4));
    lemma_run_first_line(lh, rest4, st3);
    lemma_line_assignment(st4, k4, d);
    assert(apply_kv(st4, k4, d) == Option::Some(st5));
    lemma_run_first_line(l4, Seq::<char>::empty(), st4);
    assert(run_lines(Seq::<char>::empty(), 0, st5) == Option::Some(st5));
    assert(run_lines(doc, 0, st0) == Option::Some(st5));
    assert(finish_state(st5) == Option::Some(
        ConfigView {
            open_file: a,
            save_file: b,
            save_files: Option::Some(c),
            tips: Option::Some(TipsView { open_file_when_folder: d }),
        },
    ));
}

/// With no configuration at all — an empty file parses to nothing, as an
/// absent file yields nothing — the record resolves to the neutral
/// default for all four fields.
pub proof fn lemma_no_config_defaults()
    ensures
        parse_doc(""@) is None,
        record_of(parse_doc(""@)) == (RecordView {
            savefile: default_select(),
            openfile: default_select(),
            savefiles: default_select(),
            openfile_casefolder: default_select(),
        }),
        record_of(Option::<ConfigView>::None) == (RecordView {
            savefile: default_select(),
            openfile: default_select(),
            savefiles: default_select(),
            openfile_casefolder: default_select(),
        }),
{
    reveal_strlit("");
    assert(""@.len() == 0);
    assert(run_lines(""@, 0, init_state()) == Option::Some(init_state()));
}

/// The name mapping never rejects: any name that is not one of the four
/// recognized spellings resolves to `Other` carrying it verbatim.
pub proof fn lemma_unrecognized_name_is_other(s: Seq<char>)
    requires
        s != "Gnome"@,
        s != "Kde"@,
        s != "Lxqt"@,
        s != "Gtk"@,
    ensures
        select_of_name(s) == SelectView::Other(s),
{
}

/// When the configuration has no directory-open override, the
/// directory-open field falls back to `open_file`'s resolved value.
pub proof fn lemma_absent_override_falls_back(c: ConfigView)
    requires
        c.tips is None,
    ensures
        record_of(Option::Some(c)).openfile_casefolder == record_of(Option::Some(c)).openfile,
{
}

/// When the configuration does not set `save_files`, that field resolves
/// to the neutral default.
pub proof fn lemma_absent_save_files_defaults(c: ConfigView)
    requires
        c.save_files is None,
    ensures
        record_of(Option::Some(c)).savefiles == default_select(),
{
}

} // verus!
