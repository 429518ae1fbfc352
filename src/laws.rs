//! Properties of extraction, stated over the catalogue model that `parse` meets.
use crate::extract::{catalogue, kind_labels, line_labels};
use crate::label::{LabelView, LabelsView, Type};
use crate::pattern::captures_of;
use regex::Regex;
use vstd::prelude::*;

verus! {

/// `after` is `before` followed by markers that all stand on line `n`.
pub open spec fn extends_on_line(before: Seq<LabelView>, after: Seq<LabelView>, n: nat) -> bool {
    &&& before.len() <= after.len()
    &&& after.subrange(0, before.len() as int) == before
    &&& forall|k: int| before.len() <= k < after.len() ==> (#[trigger] after[k]).line_number == n
}

/// Every marker of `s` has kind `t` and source `path`, is well formed, stands
/// on a line of `lines` that decoded, and the line numbers never decrease
/// along `s`.
pub open spec fn placed_in(
    s: Seq<LabelView>,
    t: Type,
    lines: Seq<Option<Seq<char>>>,
    path: Seq<char>,
) -> bool {
    &&& forall|k: int|
        0 <= k < s.len() ==> {
            &&& (#[trigger] s[k]).label_type == t
            &&& s[k].path == path
            &&& s[k].wf()
            &&& s[k].line_number <= lines.len()
            &&& lines[s[k].line_number - 1] is Some
        }
    &&& forall|j: int, k: int|
        0 <= j < k < s.len() ==> (#[trigger] s[j]).line_number <= (#[trigger] s[k]).line_number
}

/// The markers that one line's matches give all carry that line's kind, source
/// and number.
pub proof fn lemma_line_labels_fields(
    t: Type,
    found: Seq<Option<Seq<char>>>,
    path: Seq<char>,
    n: nat,
)
    ensures
        forall|k: int|
            0 <= k < line_labels(t, found, path, n).len() ==> {
                &&& (#[trigger] line_labels(t, found, path, n)[k]).label_type == t
                &&& line_labels(t, found, path, n)[k].path == path
                &&& line_labels(t, found, path, n)[k].line_number == n
            },
    decreases found.len(),
{
    if found.len() > 0 {
        lemma_line_labels_fields(t, found.drop_last(), path, n);
    }
}

/// Adding one line at the end of an input adds, after the markers already
/// found, exactly the markers of that line, numbered by its position.
pub proof fn lemma_kind_labels_push(
    re: Regex,
    t: Type,
    before: Seq<Option<Seq<char>>>,
    line: Option<Seq<char>>,
    path: Seq<char>,
)
    ensures
        kind_labels(re, t, before.push(line), path) == kind_labels(re, t, before, path) + match line {
            Some(text) => line_labels(t, captures_of(re, text), path, before.len() + 1),
            None => Seq::<LabelView>::empty(),
        },
{
    assert(before.push(line).drop_last() == before);
    assert(kind_labels(re, t, before, path) + Seq::<LabelView>::empty() == kind_labels(
        re,
        t,
        before,
        path,
    ));
}

/// The markers of one kind in an input carry that kind and the input's source,
/// stand on lines that decoded, and come in line order.
pub proof fn lemma_kind_labels_placed(
    re: Regex,
    t: Type,
    lines: Seq<Option<Seq<char>>>,
    path: Seq<char>,
)
    ensures
        placed_in(kind_labels(re, t, lines, path), t, lines, path),
    decreases lines.len(),
{
    if lines.len() > 0 {
        let before = lines.drop_last();
        lemma_kind_labels_placed(re, t, before, path);
        lemma_kind_labels_push(re, t, before, lines.last(), path);
        assert(before.push(lines.last()) == lines);
        let prev = kind_labels(re, t, before, path);
        let all = kind_labels(re, t, lines, path);
        match lines.last() {
            Some(text) => {
                let found = captures_of(re, text);
                lemma_line_labels_fields(t, found, path, lines.len());
                assert forall|k: int| 0 <= k < all.len() implies {
                    &&& (#[trigger] all[k]).label_type == t
                    &&& all[k].path == path
                    &&& 1 <= all[k].line_number <= lines.len()
                    &&& lines[all[k].line_number - 1] is Some
                } by {
                    if k >= prev.len() {
                        assert(all[k] == line_labels(t, found, path, lines.len())[k - prev.len()]);
                    } else {
                        assert(all[k] == prev[k]);
                        assert(lines[all[k].line_number - 1] == before[all[k].line_number - 1]);
                    }
                }
                assert forall|j: int, k: int| 0 <= j < k < all.len() implies (#[trigger] all[j]).line_number
                    <= (#[trigger] all[k]).line_number by {
                    if k >= prev.len() {
                        assert(all[k] == line_labels(t, found, path, lines.len())[k - prev.len()]);
                        if j >= prev.len() {
                            assert(all[j] == line_labels(t, found, path, lines.len())[j - prev.len()]);
                        } else {
                            assert(all[j] == prev[j]);
                        }
                    } else {
                        assert(all[k] == prev[k]);
                        assert(all[j] == prev[j]);
                    }
                }
            },
            None => {
                assert(all == prev);
                assert forall|k: int| 0 <= k < all.len() implies lines[(#[trigger] all[k]).line_number
                    - 1] is Some by {
                    assert(lines[all[k].line_number - 1] == before[all[k].line_number - 1]);
                }
            },
        }
    }
}

/// An empty input gives an empty catalogue.
pub proof fn lemma_empty_input(
    tag_re: Regex,
    ref_re: Regex,
    file_re: Regex,
    dir_re: Regex,
    path: Seq<char>,
)
    ensures
        ({
            let c = catalogue(tag_re, ref_re, file_re, dir_re, Seq::empty(), path);
            &&& c.tags.len() == 0
            &&& c.refs.len() == 0
            &&& c.files.len() == 0
            &&& c.dirs.len() == 0
        }),
{
}

/// All markers that one line adds, of whatever kind and in whatever order the
/// kinds stand on it, carry that line's number; the markers of earlier lines
/// stay as they were.
pub proof fn lemma_same_line_same_number(
    tag_re: Regex,
    ref_re: Regex,
    file_re: Regex,
    dir_re: Regex,
    before: Seq<Option<Seq<char>>>,
    text: Seq<char>,
    path: Seq<char>,
)
    ensures
        ({
            let c0 = catalogue(tag_re, ref_re, file_re, dir_re, before, path);
            let c1 = catalogue(tag_re, ref_re, file_re, dir_re, before.push(Some(text)), path);
            let n = before.len() + 1;
            &&& extends_on_line(c0.tags, c1.tags, n)
            &&& extends_on_line(c0.refs, c1.refs, n)
            &&& extends_on_line(c0.files, c1.files, n)
            &&& extends_on_line(c0.dirs, c1.dirs, n)
        }),
{
    lemma_line_extends(tag_re, Type::Tag, before, text, path);
    lemma_line_extends(ref_re, Type::Ref, before, text, path);
    lemma_line_extends(file_re, Type::File, before, text, path);
    lemma_line_extends(dir_re, Type::Dir, before, text, path);
}

proof fn lemma_line_extends(
    re: Regex,
    t: Type,
    before: Seq<Option<Seq<char>>>,
    text: Seq<char>,
    path: Seq<char>,
)
    ensures
        extends_on_line(
            kind_labels(re, t, before, path),
            kind_labels(re, t, before.push(Some(text)), path),
            before.len() + 1,
        ),
{
    let n = before.len() + 1;
    let prev = kind_labels(re, t, before, path);
    let all = kind_labels(re, t, before.push(Some(text)), path);
    let found = captures_of(re, text);
    lemma_kind_labels_push(re, t, before, Some(text), path);
    lemma_line_labels_fields(t, found, path, n);
    assert(all.subrange(0, prev.len() as int) =~= prev);
    assert forall|k: int| prev.len() <= k < all.len() implies (#[trigger] all[k]).line_number
        == n by {
        assert(all[k] == line_labels(t, found, path, n)[k - prev.len()]);
    }
}

/// Line numbers count every physical line: a line that failed to decode adds no
/// marker yet takes its number, so a marker on the line after it is numbered by
/// its own position; and every marker in the catalogue carries its kind and the
/// input's source, stands on a line of the input that decoded, and the markers of
/// each kind come in line order.
pub proof fn lemma_line_numbers_are_positions(
    tag_re: Regex,
    ref_re: Regex,
    file_re: Regex,
    dir_re: Regex,
    lines: Seq<Option<Seq<char>>>,
    path: Seq<char>,
)
    ensures
        catalogue(tag_re, ref_re, file_re, dir_re, lines.push(None), path) == catalogue(
            tag_re,
            ref_re,
            file_re,
            dir_re,
            lines,
            path,
        ),
        ({
            let c = catalogue(tag_re, ref_re, file_re, dir_re, lines, path);
            &&& placed_in(c.tags, Type::Tag, lines, path)
            &&& placed_in(c.refs, Type::Ref, lines, path)
            &&& placed_in(c.files, Type::File, lines, path)
            &&& placed_in(c.dirs, Type::Dir, lines, path)
        }),
{
    lemma_kind_labels_push(tag_re, Type::Tag, lines, None, path);
    lemma_kind_labels_push(ref_re, Type::Ref, lines, None, path);
    lemma_kind_labels_push(file_re, Type::File, lines, None, path);
    lemma_kind_labels_push(dir_re, Type::Dir, lines, None, path);
    lemma_kind_labels_placed(tag_re, Type::Tag, lines, path);
    lemma_kind_labels_placed(ref_re, Type::Ref, lines, path);
    lemma_kind_labels_placed(file_re, Type::File, lines, path);
    lemma_kind_labels_placed(dir_re, Type::Dir, lines, path);
}

/// Two extractions over the same input with the same patterns give catalogues
/// with the same markers in the same order.
pub proof fn lemma_extraction_repeats(
    tag_re: Regex,
    ref_re: Regex,
    file_re: Regex,
    dir_re: Regex,
    lines: Seq<Option<Seq<char>>>,
    path: Seq<char>,
    first: LabelsView,
    second: LabelsView,
)
    requires
        first == catalogue(tag_re, ref_re, file_re, dir_re, lines, path),
        second == catalogue(tag_re, ref_re, file_re, dir_re, lines, path),
    ensures
        first == second,
{
}

} // verus!
