//! The marker kinds, one marker occurrence, and the catalogue of one input.
use vstd::prelude::*;

verus! {

/// The kind of a marker.
#[derive(Clone, Copy, Debug, PartialEq, Eq, Structural)]
pub enum Type {
    Tag,
    Ref,
    File,
    Dir,
}

/// The keyword of a kind as it is written in a marker and in a rendering.
pub open spec fn keyword(t: Type) -> Seq<char> {
    match t {
        Type::Tag => seq!['t', 'a', 'g'],
        Type::Ref => seq!['r', 'e', 'f'],
        Type::File => seq!['f', 'i', 'l', 'e'],
        Type::Dir => seq!['d', 'i', 'r'],
    }
}

/// One marker occurrence: its kind, its label text as written, the input it was
/// found in, and the 1-based line it stands on.
#[derive(Clone, Debug)]
pub struct Label {
    pub label_type: Type,
    pub label: String,
    pub path: String,
    pub line_number: usize,
}

/// The mathematical value of a `Label`.
pub struct LabelView {
    pub label_type: Type,
    pub label: Seq<char>,
    pub path: Seq<char>,
    pub line_number: nat,
}

impl View for Label {
    type V = LabelView;

    open spec fn view(&self) -> LabelView {
        LabelView {
            label_type: self.label_type,
            label: self.label@,
            path: self.path@,
            line_number: self.line_number as nat,
        }
    }
}

/// The character of a decimal digit.
pub open spec fn digit_char(d: nat) -> char {
    seq!['0', '1', '2', '3', '4', '5', '6', '7', '8', '9'][d as int]
}

/// The decimal numeral of `n`, without leading zeros.
pub open spec fn decimal(n: nat) -> Seq<char>
    decreases n,
{
    if n < 10 {
        seq![digit_char(n)]
    } else {
        decimal(n / 10).push(digit_char(n % 10))
    }
}

impl LabelView {
    /// Line numbers start at 1.
    pub open spec fn wf(self) -> bool {
        self.line_number >= 1
    }

    /// The human-readable form `[<kind>:<text>] @ <source>:<line>`.
    pub open spec fn rendered(self) -> Seq<char> {
        seq!['['] + keyword(self.label_type) + seq![':'] + self.label + seq![']', ' ', '@', ' ']
            + self.path + seq![':'] + decimal(self.line_number)
    }
}

/// The keyword of a kind, as text.
fn keyword_str(t: Type) -> (r: &'static str)
    ensures
        r@ == keyword(t),
{
    match t {
        Type::Tag => {
            proof { reveal_strlit("tag"); }
            "tag"
        },
        Type::Ref => {
            proof { reveal_strlit("ref"); }
            "ref"
        },
        Type::File => {
            proof { reveal_strlit("file"); }
            "file"
        },
        Type::Dir => {
            proof { reveal_strlit("dir"); }
            "dir"
        },
    }
}

/// One decimal digit, as text.
fn digit_str(d: usize) -> (r: &'static str)
    requires
        d < 10,
    ensures
        r@ == seq![digit_char(d as nat)],
{
    let r = if d == 0 {
        proof { reveal_strlit("0"); }
        "0"
    } else if d == 1 {
        proof { reveal_strlit("1"); }
        "1"
    } else if d == 2 {
        proof { reveal_strlit("2"); }
        "2"
    } else if d == 3 {
        proof { reveal_strlit("3"); }
        "3"
    } else if d == 4 {
        proof { reveal_strlit("4"); }
        "4"
    } else if d == 5 {
        proof { reveal_strlit("5"); }
        "5"
    } else if d == 6 {
        proof { reveal_strlit("6"); }
        "6"
    } else if d == 7 {
        proof { reveal_strlit("7"); }
        "7"
    } else if d == 8 {
        proof { reveal_strlit("8"); }
        "8"
    } else {
        proof { reveal_strlit("9"); }
        "9"
    };
    assert(r@ =~= seq![digit_char(d as nat)]);
    r
}

/// Appends the decimal numeral of `n` to `out`.
fn push_decimal(out: &mut String, n: usize)
    ensures
        final(out)@ == old(out)@ + decimal(n as nat),
    decreases n,
{
    if n >= 10 {
        push_decimal(out, n / 10);
    }
    out.append(digit_str(n % 10));
    assert(out@ =~= old(out)@ + decimal(n as nat));
}

impl Label {
    /// The human-readable form `[<kind>:<text>] @ <source>:<line>`, with the
    /// kind written `tag`, `ref`, `file` or `dir`.
    pub fn render(&self) -> (r: String)
        ensures
            r@ == self@.rendered(),
    {
        let mut r = String::new();
        proof {
            reveal_strlit("[");
            reveal_strlit(":");
            reveal_strlit("] @ ");
        }
        r.append("[");
        r.append(keyword_str(self.label_type));
        r.append(":");
        r.append(self.label.as_str());
        r.append("] @ ");
        r.append(self.path.as_str());
        r.append(":");
        push_decimal(&mut r, self.line_number);
        assert(r@ =~= self@.rendered());
        r
    }
}

/// The markers of one input, one sequence per kind, each in order of discovery.
#[derive(Clone, Debug)]
pub struct Labels {
    pub tags: Vec<Label>,
    pub refs: Vec<Label>,
    pub files: Vec<Label>,
    pub dirs: Vec<Label>,
}

/// The mathematical value of a `Labels`.
pub struct LabelsView {
    pub tags: Seq<LabelView>,
    pub refs: Seq<LabelView>,
    pub files: Seq<LabelView>,
    pub dirs: Seq<LabelView>,
}

/// The views of a sequence of labels.
pub open spec fn views(s: Seq<Label>) -> Seq<LabelView> {
    s.map_values(|l: Label| l@)
}

impl View for Labels {
    type V = LabelsView;

    open spec fn view(&self) -> LabelsView {
        LabelsView {
            tags: views(self.tags@),
            refs: views(self.refs@),
            files: views(self.files@),
            dirs: views(self.dirs@),
        }
    }
}

impl LabelsView {
    /// The sequence that holds the markers of kind `t`.
    pub open spec fn of_kind(self, t: Type) -> Seq<LabelView> {
        match t {
            Type::Tag => self.tags,
            Type::Ref => self.refs,
            Type::File => self.files,
            Type::Dir => self.dirs,
        }
    }
}

} // verus!
