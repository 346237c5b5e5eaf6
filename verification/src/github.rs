//! Annotation commands for the CI platform: severity classification, primary
//! span selection, the canonical one-line rendering, and the total order on
//! annotations.

use crate::cargo::{CargoMessage, DiagnosticLevel, DiagnosticView, SpanView};
use crate::text::{
    dec_rep, escape_rec, escaped, path_cmp, trim_spec, trimmed, usize_to_string,
    lemma_path_cmp_antisym, lemma_path_cmp_trans, compare_paths,
};
use core::cmp::Ordering;
use vstd::prelude::*;
use vstd::string::*;

verus! {

/// Kind of annotation, totally ordered `Notice < Warning < Error`.
#[derive(Debug, Clone, Copy, PartialEq, Eq, Hash, Structural)]
pub enum AnnotationKind {
    Notice,
    Warning,
    Error,
}

/// The severity class of a raw diagnostic level: fatal levels map to
/// `Error`, warnings to `Warning`, and every informational level to
/// `Notice`.
pub open spec fn spec_classify(level: DiagnosticLevel) -> AnnotationKind {
    match level {
        DiagnosticLevel::Error | DiagnosticLevel::InternalCompilerError => AnnotationKind::Error,
        DiagnosticLevel::Warning => AnnotationKind::Warning,
        _ => AnnotationKind::Notice,
    }
}

impl From<DiagnosticLevel> for AnnotationKind {
    fn from(level: DiagnosticLevel) -> (r: Self) {
        match level {
            DiagnosticLevel::Error | DiagnosticLevel::InternalCompilerError => Self::Error,
            DiagnosticLevel::Warning => Self::Warning,
            _ => Self::Notice,
        }
    }
}

impl vstd::std_specs::convert::FromSpecImpl<DiagnosticLevel> for AnnotationKind {
    open spec fn obeys_from_spec() -> bool {
        true
    }

    open spec fn from_spec(level: DiagnosticLevel) -> Self {
        spec_classify(level)
    }
}

/// The position of a kind in the severity order.
pub open spec fn kind_rank(k: AnnotationKind) -> int {
    match k {
        AnnotationKind::Notice => 0,
        AnnotationKind::Warning => 1,
        AnnotationKind::Error => 2,
    }
}

/// The more severe of two kinds.
pub open spec fn spec_kind_max(a: AnnotationKind, b: AnnotationKind) -> AnnotationKind {
    if kind_rank(a) >= kind_rank(b) {
        a
    } else {
        b
    }
}

/// The emoji of a kind, shown in the summary table.
pub open spec fn spec_emoji(k: AnnotationKind) -> Seq<char> {
    match k {
        AnnotationKind::Notice => ":information_source:"@,
        AnnotationKind::Warning => ":warning:"@,
        AnnotationKind::Error => ":x:"@,
    }
}

/// The capitalized name of a kind.
pub open spec fn spec_kind_name(k: AnnotationKind) -> Seq<char> {
    match k {
        AnnotationKind::Notice => "Notice"@,
        AnnotationKind::Warning => "Warning"@,
        AnnotationKind::Error => "Error"@,
    }
}

/// The lower-case name of a kind, used in the annotation command itself.
pub open spec fn spec_kind_lower(k: AnnotationKind) -> Seq<char> {
    match k {
        AnnotationKind::Notice => "notice"@,
        AnnotationKind::Warning => "warning"@,
        AnnotationKind::Error => "error"@,
    }
}

/// The cell text for a kind in the summary table: emoji, space, name.
pub open spec fn spec_kind_label(k: AnnotationKind) -> Seq<char> {
    spec_emoji(k) + " "@ + spec_kind_name(k)
}

impl AnnotationKind {
    fn rank(&self) -> (r: u8)
        ensures
            r as int == kind_rank(*self),
    {
        match self {
            AnnotationKind::Notice => 0,
            AnnotationKind::Warning => 1,
            AnnotationKind::Error => 2,
        }
    }

    /// Whether this kind is at least as severe as `other`.
    pub fn ge(&self, other: &AnnotationKind) -> (r: bool)
        ensures
            r == (kind_rank(*self) >= kind_rank(*other)),
    {
        self.rank() >= other.rank()
    }

    /// The more severe of `self` and `other`.
    pub fn max(self, other: AnnotationKind) -> (r: AnnotationKind)
        ensures
            r == spec_kind_max(self, other),
    {
        if self.ge(&other) {
            self
        } else {
            other
        }
    }

    /// Returns the emoji associated with the annotation kind.
    pub fn emoji(&self) -> (r: &'static str)
        ensures
            r@ == spec_emoji(*self),
    {
        match self {
            AnnotationKind::Notice => ":information_source:",
            AnnotationKind::Warning => ":warning:",
            AnnotationKind::Error => ":x:",
        }
    }

    fn name(&self) -> (r: &'static str)
        ensures
            r@ == spec_kind_name(*self),
    {
        match self {
            AnnotationKind::Notice => "Notice",
            AnnotationKind::Warning => "Warning",
            AnnotationKind::Error => "Error",
        }
    }

    fn lower(&self) -> (r: &'static str)
        ensures
            r@ == spec_kind_lower(*self),
    {
        match self {
            AnnotationKind::Notice => "notice",
            AnnotationKind::Warning => "warning",
            AnnotationKind::Error => "error",
        }
    }

    /// The kind as it is shown in the summary table: emoji, space, name.
    pub fn label(&self) -> (r: String)
        ensures
            r@ == spec_kind_label(*self),
    {
        let mut s = self.emoji().to_owned();
        s.append(" ");
        s.append(self.name());
        proof {
            assert(s@ =~= spec_kind_label(*self));
        }
        s
    }
}

/// An annotation command: the canonical, deduplicated, renderable unit
/// derived from a diagnostic's primary span.
#[derive(Debug)]
pub struct Annotation {
    /// Kind of annotation
    pub kind: AnnotationKind,
    /// File to annotate
    pub file: String,
    /// Start of the lines to annotate (1-based, inclusive)
    pub line: usize,
    /// End of the lines to annotate (1-based)
    pub end_line: Option<usize>,
    /// Start of the columns to annotate (1-based, inclusive)
    pub col: Option<usize>,
    /// End of the columns to annotate (1-based, exclusive)
    pub end_column: Option<usize>,
    /// Annotation title
    pub title: Option<String>,
    /// Annotation message
    pub message: String,
}

/// Mathematical model of an [`Annotation`].
pub ghost struct AnnotationView {
    pub kind: AnnotationKind,
    pub file: Seq<char>,
    pub line: int,
    pub end_line: Option<int>,
    pub col: Option<int>,
    pub end_column: Option<int>,
    pub title: Option<Seq<char>>,
    pub message: Seq<char>,
}

/// The model of an optional number.
pub open spec fn view_opt_usize(o: Option<usize>) -> Option<int> {
    match o {
        Some(x) => Some(x as int),
        None => None,
    }
}

/// The model of an optional text.
pub open spec fn view_opt_string(o: Option<String>) -> Option<Seq<char>> {
    match o {
        Some(s) => Some(s@),
        None => None,
    }
}

impl View for Annotation {
    type V = AnnotationView;

    open spec fn view(&self) -> AnnotationView {
        AnnotationView {
            kind: self.kind,
            file: self.file@,
            line: self.line as int,
            end_line: view_opt_usize(self.end_line),
            col: view_opt_usize(self.col),
            end_column: view_opt_usize(self.end_column),
            title: view_opt_string(self.title),
            message: self.message@,
        }
    }
}

/// Whether some span of the list is marked primary.
pub open spec fn has_primary(spans: Seq<SpanView>) -> bool {
    exists|i: int| 0 <= i < spans.len() && spans[i].is_primary
}

/// The index of the first primary span of the list.
pub open spec fn first_primary(spans: Seq<SpanView>) -> int
    decreases spans.len(),
{
    if spans.len() == 0 {
        0
    } else if spans[0].is_primary {
        0
    } else {
        1 + first_primary(spans.drop_first())
    }
}

/// Finds the index of the first span marked primary, if any span is.
pub fn find_primary(spans: &Vec<crate::cargo::DiagnosticSpan>) -> (r: Option<usize>)
    ensures
        match r {
            Some(i) => 0 <= i < spans@.len() && spans@[i as int].is_primary && (forall|j: int|
                0 <= j < i ==> !(#[trigger] spans@[j]).is_primary),
            None => forall|j: int| 0 <= j < spans@.len() ==> !(#[trigger] spans@[j]).is_primary,
        },
{
    let n = spans.len();
    let mut i: usize = 0;
    while i < n
        invariant
            0 <= i <= n,
            n == spans@.len(),
            forall|j: int| 0 <= j < i ==> !(#[trigger] spans@[j]).is_primary,
        decreases n - i,
    {
        if spans[i].is_primary {
            return Some(i);
        }
        i = i + 1;
    }
    None
}

/// The index found by a left-to-right search — primary, with nothing
/// primary before it — is the first primary index.
pub proof fn lemma_first_primary_at(spans: Seq<SpanView>, i: int)
    requires
        0 <= i < spans.len(),
        spans[i].is_primary,
        forall|j: int| 0 <= j < i ==> !spans[j].is_primary,
    ensures
        first_primary(spans) == i,
        has_primary(spans),
    decreases i,
{
    if i > 0 {
        let t = spans.drop_first();
        assert(t[i - 1] == spans[i]);
        assert(forall|j: int| 0 <= j < i - 1 ==> !t[j].is_primary);
        lemma_first_primary_at(t, i - 1);
    }
}

/// The annotation built from a diagnostic's first primary span: severity
/// classified, location copied from that span, and — when the compiler
/// supplied a rendered text — the original message demoted to the title and
/// the rendered text used as the message.
pub open spec fn spec_annotation_of(d: DiagnosticView) -> AnnotationView {
    let s = d.spans[first_primary(d.spans)];
    AnnotationView {
        kind: spec_classify(d.level),
        file: s.file_name,
        line: s.line_start,
        end_line: Some(s.line_end),
        col: Some(s.column_start),
        end_column: Some(s.column_end),
        title: match d.rendered {
            Some(_) => Some(d.message),
            None => None,
        },
        message: match d.rendered {
            Some(r) => r,
            None => d.message,
        },
    }
}

/// The canonical one-line rendering of an annotation:
/// `::<kind> file=<file>,line=<line>[,endLine=..][,col=..[,endColumn=..]][,title=..]::<message>`
/// with the message trimmed and percent-escaped.
pub open spec fn spec_render(a: AnnotationView) -> Seq<char> {
    "::"@ + spec_kind_lower(a.kind) + " file="@ + a.file + ",line="@ + dec_rep(a.line as nat) + (
    match a.end_line {
        Some(e) => ",endLine="@ + dec_rep(e as nat),
        None => Seq::empty(),
    }) + (match a.col {
        Some(c) => ",col="@ + dec_rep(c as nat) + (match a.end_column {
            Some(ec) => ",endColumn="@ + dec_rep(ec as nat),
            None => Seq::empty(),
        }),
        None => Seq::empty(),
    }) + (match a.title {
        Some(t) => ",title="@ + t,
        None => Seq::empty(),
    }) + "::"@ + escape_rec(trim_spec(a.message))
}

impl Annotation {
    /// Builds the annotation of a diagnostic, or reports that the diagnostic
    /// has no primary span. Succeeds if and only if some span is primary.
    pub fn try_from(message: CargoMessage) -> (r: Result<Annotation, &'static str>)
        ensures
            r is Ok <==> has_primary(message@.spans),
            r is Ok ==> r->Ok_0@ == spec_annotation_of(message@),
            r is Err ==> r->Err_0@ == "Missing primary span"@,
    {
        match message {
            CargoMessage::CompilerMessage(d) => {
                let ghost dv = d@;
                let i = match find_primary(&d.spans) {
                    Some(i) => i,
                    None => {
                        proof {
                            assert(forall|j: int|
                                0 <= j < dv.spans.len() ==> !(#[trigger] dv.spans[j]).is_primary);
                        }
                        return Err("Missing primary span");
                    },
                };
                proof {
                    assert(forall|j: int| 0 <= j < i ==> !(#[trigger] dv.spans[j]).is_primary);
                    assert(dv.spans[i as int].is_primary);
                    lemma_first_primary_at(dv.spans, i as int);
                }
                let span = &d.spans[i];
                let file = span.file_name.clone();
                let line = span.line_start;
                let end_line = Some(span.line_end);
                let col = Some(span.column_start);
                let end_column = Some(span.column_end);
                let kind = AnnotationKind::from(d.level);
                let (title, msg) = match d.rendered {
                    Some(rendered) => (Some(d.message.clone()), rendered),
                    None => (None, d.message),
                };
                let a = Annotation { kind, file, line, end_line, col, end_column, title, message: msg };
                proof {
                    assert(a@ == spec_annotation_of(dv));
                }
                Ok(a)
            },
        }
    }

    /// Clones `self` such that all strings are owned anew.
    pub fn to_owned(&self) -> (r: Annotation)
        ensures
            r@ == self@,
    {
        Annotation {
            kind: self.kind,
            file: self.file.clone(),
            line: self.line,
            end_line: self.end_line,
            col: self.col,
            end_column: self.end_column,
            title: match &self.title {
                Some(t) => Some(t.clone()),
                None => None,
            },
            message: self.message.clone(),
        }
    }

    /// Renders the annotation to its canonical one-line form, exactly as
    /// [`spec_render`] states.
    pub fn render(&self) -> (r: String)
        ensures
            r@ == spec_render(self@),
    {
        let mut out = "::".to_owned();
        out.append(self.kind.lower());
        out.append(" file=");
        out.append(self.file.as_str());
        out.append(",line=");
        let line = usize_to_string(self.line);
        out.append(line.as_str());
        if let Some(e) = self.end_line {
            out.append(",endLine=");
            let t = usize_to_string(e);
            out.append(t.as_str());
        }
        if let Some(c) = self.col {
            out.append(",col=");
            let t = usize_to_string(c);
            out.append(t.as_str());
            if let Some(ec) = self.end_column {
                out.append(",endColumn=");
                let t2 = usize_to_string(ec);
                out.append(t2.as_str());
            }
        }
        if let Some(title) = &self.title {
            out.append(",title=");
            out.append(title.as_str());
        }
        out.append("::");
        let t = trimmed(self.message.as_str());
        let esc = escaped(t.as_str());
        out.append(esc.as_str());
        proof {
            assert(out@ =~= spec_render(self@));
        }
        out
    }
}

/// Comparison of two numbers.
pub open spec fn int_cmp(a: int, b: int) -> Ordering {
    if a < b {
        Ordering::Less
    } else if a > b {
        Ordering::Greater
    } else {
        Ordering::Equal
    }
}

/// Comparison of two optional numbers; an absent value sorts first.
pub open spec fn opt_cmp(a: Option<int>, b: Option<int>) -> Ordering {
    match (a, b) {
        (None, None) => Ordering::Equal,
        (None, Some(_)) => Ordering::Less,
        (Some(_), None) => Ordering::Greater,
        (Some(x), Some(y)) => int_cmp(x, y),
    }
}

/// The total order on annotations: file under the lexicographic path order,
/// then line ascending, then column ascending with an absent column first,
/// then kind descending, so the more severe annotation sorts first among
/// otherwise equal keys.
pub open spec fn spec_cmp(a: AnnotationView, b: AnnotationView) -> Ordering {
    if path_cmp(a.file, b.file) != Ordering::Equal {
        path_cmp(a.file, b.file)
    } else if int_cmp(a.line, b.line) != Ordering::Equal {
        int_cmp(a.line, b.line)
    } else if opt_cmp(a.col, b.col) != Ordering::Equal {
        opt_cmp(a.col, b.col)
    } else {
        int_cmp(kind_rank(b.kind), kind_rank(a.kind))
    }
}

impl Annotation {
    /// Compares two annotations, exactly as [`spec_cmp`] states.
    pub fn cmp(&self, other: &Annotation) -> (r: Ordering)
        ensures
            r == spec_cmp(self@, other@),
    {
        let f = compare_paths(self.file.as_str(), other.file.as_str());
        match f {
            Ordering::Equal => {},
            _ => {
                return f;
            },
        }
        if self.line < other.line {
            return Ordering::Less;
        }
        if self.line > other.line {
            return Ordering::Greater;
        }
        match (self.col, other.col) {
            (None, None) => {},
            (None, Some(_)) => {
                return Ordering::Less;
            },
            (Some(_), None) => {
                return Ordering::Greater;
            },
            (Some(x), Some(y)) => {
                if x < y {
                    return Ordering::Less;
                }
                if x > y {
                    return Ordering::Greater;
                }
            },
        }
        let ra = self.kind.rank();
        let rb = other.kind.rank();
        if rb < ra {
            Ordering::Less
        } else if rb > ra {
            Ordering::Greater
        } else {
            Ordering::Equal
        }
    }
}

proof fn lemma_kind_rank_injective(x: AnnotationKind, y: AnnotationKind)
    requires
        kind_rank(x) == kind_rank(y),
    ensures
        x == y,
{
    match (x, y) {
        (AnnotationKind::Notice, AnnotationKind::Notice) => {},
        (AnnotationKind::Warning, AnnotationKind::Warning) => {},
        (AnnotationKind::Error, AnnotationKind::Error) => {},
        _ => {
            assert(false);
        },
    }
}

/// The order on annotations is antisymmetric, and two annotations compare
/// equal exactly when their whole key — file, line, column and kind — is the
/// same; so any two annotations whose keys differ are strictly ordered, one
/// below the other.
pub proof fn lemma_cmp_antisym(a: AnnotationView, b: AnnotationView)
    ensures
        spec_cmp(a, b) == Ordering::Less <==> spec_cmp(b, a) == Ordering::Greater,
        spec_cmp(a, b) == Ordering::Equal <==> (a.file == b.file && a.line == b.line && a.col
            == b.col && a.kind == b.kind),
{
    lemma_path_cmp_antisym(a.file, b.file);
    lemma_path_cmp_antisym(b.file, a.file);
    if spec_cmp(a, b) == Ordering::Equal {
        lemma_kind_rank_injective(a.kind, b.kind);
    }
}

/// The order on annotations is transitive.
pub proof fn lemma_cmp_trans(a: AnnotationView, b: AnnotationView, c: AnnotationView)
    requires
        spec_cmp(a, b) == Ordering::Less,
        spec_cmp(b, c) == Ordering::Less,
    ensures
        spec_cmp(a, c) == Ordering::Less,
{
    lemma_path_cmp_antisym(a.file, b.file);
    lemma_path_cmp_antisym(b.file, c.file);
    lemma_path_cmp_antisym(a.file, c.file);
    if path_cmp(a.file, b.file) == Ordering::Less && path_cmp(b.file, c.file) == Ordering::Less {
        lemma_path_cmp_trans(a.file, b.file, c.file);
    }
}

fn opt_usize_eq(a: &Option<usize>, b: &Option<usize>) -> (r: bool)
    ensures
        r == (view_opt_usize(*a) == view_opt_usize(*b)),
{
    match (a, b) {
        (None, None) => true,
        (Some(x), Some(y)) => x == y,
        _ => false,
    }
}

fn opt_string_eq(a: &Option<String>, b: &Option<String>) -> (r: bool)
    ensures
        r == (view_opt_string(*a) == view_opt_string(*b)),
{
    match (a, b) {
        (None, None) => true,
        (Some(x), Some(y)) => *x == *y,
        _ => false,
    }
}

impl PartialEq for Annotation {
    /// Structural equality over all fields: the dedup set treats two
    /// annotations as duplicates only when every field matches exactly.
    fn eq(&self, other: &Annotation) -> (r: bool) {
        self.kind == other.kind && self.file == other.file && self.line == other.line
            && opt_usize_eq(&self.end_line, &other.end_line) && opt_usize_eq(
            &self.col,
            &other.col,
        ) && opt_usize_eq(&self.end_column, &other.end_column) && opt_string_eq(
            &self.title,
            &other.title,
        ) && self.message == other.message
    }
}

impl vstd::std_specs::cmp::PartialEqSpecImpl for Annotation {
    open spec fn obeys_eq_spec() -> bool {
        true
    }

    open spec fn eq_spec(&self, other: &Annotation) -> bool {
        self@ == other@
    }
}

/// Rendering reads nothing but the annotation value, so rendering the same
/// value twice — or two structurally equal values — produces byte-identical
/// text.
pub proof fn lemma_render_deterministic(a: AnnotationView, b: AnnotationView)
    requires
        a == b,
    ensures
        spec_render(a) == spec_render(b),
{
}

} // verus!
