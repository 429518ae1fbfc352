//! The extraction engine: one forward pass over the lines of an input.
use crate::label::{views, Label, LabelView, Labels, LabelsView, Type};
use crate::pattern::{captures_of, first_groups};
use regex::Regex;
use vstd::prelude::*;

verus! {

/// The markers of kind `t` that the matches `found` of one line give, on line `n`
/// of input `path`: one per match whose label group took part, in match order.
pub open spec fn line_labels(
    t: Type,
    found: Seq<Option<Seq<char>>>,
    path: Seq<char>,
    n: nat,
) -> Seq<LabelView>
    decreases found.len(),
{
    if found.len() == 0 {
        Seq::empty()
    } else {
        let rest = line_labels(t, found.drop_last(), path, n);
        match found.last() {
            Some(text) => rest.push(LabelView { label_type: t, label: text, path, line_number: n }),
            None => rest,
        }
    }
}

/// The markers of kind `t` that pattern `re` finds in `lines`, where line `i`
/// (0-based) is numbered `i + 1` and a line that failed to decode is `None`.
pub open spec fn kind_labels(
    re: Regex,
    t: Type,
    lines: Seq<Option<Seq<char>>>,
    path: Seq<char>,
) -> Seq<LabelView>
    decreases lines.len(),
{
    if lines.len() == 0 {
        Seq::empty()
    } else {
        let rest = kind_labels(re, t, lines.drop_last(), path);
        match lines.last() {
            Some(text) => rest + line_labels(t, captures_of(re, text), path, lines.len()),
            None => rest,
        }
    }
}

/// The catalogue of an input: each kind's markers found by that kind's pattern.
pub open spec fn catalogue(
    tag_re: Regex,
    ref_re: Regex,
    file_re: Regex,
    dir_re: Regex,
    lines: Seq<Option<Seq<char>>>,
    path: Seq<char>,
) -> LabelsView {
    LabelsView {
        tags: kind_labels(tag_re, Type::Tag, lines, path),
        refs: kind_labels(ref_re, Type::Ref, lines, path),
        files: kind_labels(file_re, Type::File, lines, path),
        dirs: kind_labels(dir_re, Type::Dir, lines, path),
    }
}

/// Appends to `out`, in order, a marker of kind `label_type` on line
/// `line_number` of `path` for each match in `found` whose label group took part.
pub fn push_line_labels(
    out: &mut Vec<Label>,
    label_type: Type,
    found: &Vec<Option<String>>,
    path: &String,
    line_number: usize,
)
    ensures
        views(final(out)@) == views(old(out)@) + line_labels(
            label_type,
            found.deep_view(),
            path@,
            line_number as nat,
        ),
{
    let ghost start = views(out@);
    let mut i: usize = 0;
    while i < found.len()
        invariant
            i <= found@.len(),
            views(out@) == start + line_labels(
                label_type,
                found.deep_view().take(i as int),
                path@,
                line_number as nat,
            ),
        decreases found@.len() - i,
    {
        let ghost before = out@;
        proof {
            assert(found.deep_view().take(i + 1).drop_last() == found.deep_view().take(i as int));
            assert(found.deep_view().take(i + 1).last() == found.deep_view()[i as int]);
        }
        match &found[i] {
            Some(text) => {
                out.push(Label {
                    label_type,
                    label: text.clone(),
                    path: path.clone(),
                    line_number,
                });
                assert(views(out@) == views(before).push(out@.last()@));
            },
            None => {},
        }
        i = i + 1;
    }
    proof {
        assert(found.deep_view().take(found@.len() as int) == found.deep_view());
    }
}

impl Labels {
    /// A catalogue with all four sequences empty.
    pub fn new() -> (r: Labels)
        ensures
            r@.tags.len() == 0,
            r@.refs.len() == 0,
            r@.files.len() == 0,
            r@.dirs.len() == 0,
    {
        Labels { tags: Vec::new(), refs: Vec::new(), files: Vec::new(), dirs: Vec::new() }
    }
}

/// Extracts every marker of the four kinds from `lines`, the physical lines of
/// the input `path` in order, where `None` stands for a line that failed to
/// decode: it counts for the line numbers and gives no marker.
///
/// Each pattern is applied on its own to each decoded line; the text of its
/// first group is the label.
pub fn parse(
    tag_regex: &Regex,
    ref_regex: &Regex,
    file_regex: &Regex,
    dir_regex: &Regex,
    path: &str,
    lines: &Vec<Option<String>>,
) -> (r: Labels)
    ensures
        r@ == catalogue(*tag_regex, *ref_regex, *file_regex, *dir_regex, lines.deep_view(), path@),
{
    let source = String::from_str(path);
    let mut labels = Labels::new();
    let ghost all = lines.deep_view();
    proof {
        assert(labels@.tags =~= Seq::empty());
        assert(labels@.refs =~= Seq::empty());
        assert(labels@.files =~= Seq::empty());
        assert(labels@.dirs =~= Seq::empty());
        assert(all.take(0) =~= Seq::empty());
    }
    let mut i: usize = 0;
    while i < lines.len()
        invariant
            i <= lines@.len(),
            all == lines.deep_view(),
            source@ == path@,
            labels@ == catalogue(
                *tag_regex,
                *ref_regex,
                *file_regex,
                *dir_regex,
                all.take(i as int),
                path@,
            ),
        decreases lines@.len() - i,
    {
        let ghost prefix = all.take(i + 1);
        proof {
            assert(prefix.drop_last() == all.take(i as int));
            assert(prefix.last() == all[i as int]);
        }
        match &lines[i] {
            Some(line) => {
                let line_number = i + 1;
                let found = first_groups(tag_regex, line.as_str());
                push_line_labels(&mut labels.tags, Type::Tag, &found, &source, line_number);
                let found = first_groups(ref_regex, line.as_str());
                push_line_labels(&mut labels.refs, Type::Ref, &found, &source, line_number);
                let found = first_groups(file_regex, line.as_str());
                push_line_labels(&mut labels.files, Type::File, &found, &source, line_number);
                let found = first_groups(dir_regex, line.as_str());
                push_line_labels(&mut labels.dirs, Type::Dir, &found, &source, line_number);
            },
            None => {},
        }
        i = i + 1;
    }
    proof {
        assert(all.take(lines@.len() as int) == all);
    }
    labels
}

} // verus!
