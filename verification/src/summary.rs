//! Per-diagnostic summaries and the markdown summary document.

use crate::cargo::{CargoMessage, Diagnostic, DiagnosticLevel, DiagnosticView};
use crate::github::{
    find_primary, first_primary, has_primary, spec_classify, spec_kind_label, AnnotationKind,
};
use crate::text::{dec_rep, usize_to_string};
use vstd::prelude::*;
use vstd::string::*;

verus! {

/// A lightweight summary of one diagnostic: its raw severity, its message,
/// and the location of its primary span when one exists.
pub struct Summary {
    /// Severity of the diagnostic
    pub level: DiagnosticLevel,
    /// Primary message
    pub message: String,
    /// Location of the primary span, as file and first line
    pub location: Option<(String, usize)>,
}

/// Mathematical model of a [`Summary`].
pub ghost struct SummaryView {
    pub level: DiagnosticLevel,
    pub message: Seq<char>,
    pub location: Option<(Seq<char>, int)>,
}

impl View for Summary {
    type V = SummaryView;

    open spec fn view(&self) -> SummaryView {
        SummaryView {
            level: self.level,
            message: self.message@,
            location: match self.location {
                Some(p) => Some((p.0@, p.1 as int)),
                None => None,
            },
        }
    }
}

/// The summary of a diagnostic: its level and message, and the file and
/// first line of its first primary span, if any span is primary.
pub open spec fn spec_summary_of(d: DiagnosticView) -> SummaryView {
    SummaryView {
        level: d.level,
        message: d.message,
        location: if has_primary(d.spans) {
            let s = d.spans[first_primary(d.spans)];
            Some((s.file_name, s.line_start))
        } else {
            None
        },
    }
}

impl Summary {
    /// Builds the summary of one diagnostic, exactly as [`spec_summary_of`]
    /// states.
    pub fn of_diagnostic(d: &Diagnostic) -> (r: Summary)
        ensures
            r@ == spec_summary_of(d@),
    {
        let location = match find_primary(&d.spans) {
            Some(i) => {
                proof {
                    crate::github::lemma_first_primary_at(d@.spans, i as int);
                }
                let span = &d.spans[i];
                Some((span.file_name.clone(), span.line_start))
            },
            None => {
                proof {
                    assert(forall|j: int|
                        0 <= j < d@.spans.len() ==> !(#[trigger] d@.spans[j]).is_primary);
                }
                None
            },
        };
        Summary { level: d.level, message: d.message.clone(), location }
    }

    /// Builds the summary of one message envelope.
    pub fn of_message(m: &CargoMessage) -> (r: Summary)
        ensures
            r@ == spec_summary_of(m@),
    {
        match m {
            CargoMessage::CompilerMessage(d) => Summary::of_diagnostic(d),
        }
    }
}

/// The models of a list of summaries.
pub open spec fn summaries_view(v: Seq<Summary>) -> Seq<SummaryView> {
    v.map_values(|s: Summary| s@)
}

/// How many summaries classify to the given kind.
pub open spec fn count_kind(s: Seq<SummaryView>, k: AnnotationKind) -> nat
    decreases s.len(),
{
    if s.len() == 0 {
        0
    } else {
        count_kind(s.drop_last(), k) + if spec_classify(s.last().level) == k {
            1nat
        } else {
            0nat
        }
    }
}

proof fn lemma_count_kind_le_len(s: Seq<SummaryView>, k: AnnotationKind)
    ensures
        count_kind(s, k) <= s.len(),
    decreases s.len(),
{
    if s.len() > 0 {
        lemma_count_kind_le_len(s.drop_last(), k);
    }
}

/// The location cell of the summary table: `` `file:line` ``, or empty when
/// the diagnostic had no primary span.
pub open spec fn spec_loc_cell(loc: Option<(Seq<char>, int)>) -> Seq<char> {
    match loc {
        Some(p) => "`"@ + p.0 + ":"@ + dec_rep(p.1 as nat) + "`"@,
        None => Seq::empty(),
    }
}

/// One row of the summary table.
pub open spec fn spec_row(s: SummaryView) -> Seq<char> {
    "|"@ + spec_kind_label(spec_classify(s.level)) + "|"@ + s.message + "|"@ + spec_loc_cell(
        s.location,
    ) + "|\n"@
}

/// The rows of the summary table, in accumulation order.
pub open spec fn spec_rows(s: Seq<SummaryView>) -> Seq<char>
    decreases s.len(),
{
    if s.len() == 0 {
        Seq::empty()
    } else {
        spec_rows(s.drop_last()) + spec_row(s.last())
    }
}

/// One item of the totals line: the count and the label, pluralized unless
/// the count is one.
pub open spec fn spec_total_item(n: nat, name: Seq<char>) -> Seq<char> {
    dec_rep(n) + " "@ + name + if n == 1 {
        Seq::<char>::empty()
    } else {
        "s"@
    }
}

/// The totals line, counting occurrences of each kind.
pub open spec fn spec_totals(s: Seq<SummaryView>) -> Seq<char> {
    "> **TOTAL:** "@ + spec_total_item(count_kind(s, AnnotationKind::Error), "Error"@) + ", "@
        + spec_total_item(count_kind(s, AnnotationKind::Warning), "Warning"@) + ", "@
        + spec_total_item(count_kind(s, AnnotationKind::Notice), "Notice"@) + "\n"@
}

/// The whole markdown summary document: heading, totals, blank line, table.
pub open spec fn spec_doc(s: Seq<SummaryView>) -> Seq<char> {
    "# Diagnostics\n"@ + spec_totals(s) + "\n"@ + "|Level|Message|Location|\n|:--|:--|--:|\n"@
        + spec_rows(s)
}

fn count_kind_exec(summaries: &Vec<Summary>, k: AnnotationKind) -> (r: usize)
    ensures
        r as nat == count_kind(summaries_view(summaries@), k),
{
    let ghost vs = summaries_view(summaries@);
    let n = summaries.len();
    let mut r: usize = 0;
    let mut i: usize = 0;
    while i < n
        invariant
            0 <= i <= n,
            n == summaries@.len(),
            vs == summaries_view(summaries@),
            vs.len() == n,
            r as nat == count_kind(vs.subrange(0, i as int), k),
            r <= i,
        decreases n - i,
    {
        proof {
            let pre = vs.subrange(0, i as int);
            let post = vs.subrange(0, i + 1 as int);
            assert(post.drop_last() =~= pre);
            assert(post.last() == vs[i as int]);
            lemma_count_kind_le_len(pre, k);
        }
        if AnnotationKind::from(summaries[i].level) == k {
            r = r + 1;
        }
        i = i + 1;
    }
    proof {
        assert(vs.subrange(0, n as int) =~= vs);
    }
    r
}

fn append_total_item(out: &mut String, n: usize, name: &str)
    ensures
        final(out)@ == old(out)@ + spec_total_item(n as nat, name@),
{
    let d = usize_to_string(n);
    out.append(d.as_str());
    out.append(" ");
    out.append(name);
    if n != 1 {
        out.append("s");
    }
    proof {
        assert(out@ =~= old(out)@ + spec_total_item(n as nat, name@));
    }
}

fn append_row(out: &mut String, s: &Summary)
    ensures
        final(out)@ == old(out)@ + spec_row(s@),
{
    out.append("|");
    let label = AnnotationKind::from(s.level).label();
    out.append(label.as_str());
    out.append("|");
    out.append(s.message.as_str());
    out.append("|");
    match &s.location {
        Some(loc) => {
            out.append("`");
            out.append(loc.0.as_str());
            out.append(":");
            let line = usize_to_string(loc.1);
            out.append(line.as_str());
            out.append("`");
        },
        None => {},
    }
    out.append("|\n");
    proof {
        assert(out@ =~= old(out)@ + spec_row(s@));
    }
}

/// Renders the markdown summary document, exactly as [`spec_doc`] states:
/// one table row per accumulated summary in accumulation order, and a totals
/// line counting each kind with pluralized labels.
pub fn render_diagnostic_summary(summaries: &Vec<Summary>) -> (r: String)
    ensures
        r@ == spec_doc(summaries_view(summaries@)),
{
    let ghost vs = summaries_view(summaries@);
    let ne = count_kind_exec(summaries, AnnotationKind::Error);
    let nw = count_kind_exec(summaries, AnnotationKind::Warning);
    let nn = count_kind_exec(summaries, AnnotationKind::Notice);
    let mut out = "# Diagnostics\n".to_owned();
    out.append("> **TOTAL:** ");
    append_total_item(&mut out, ne, "Error");
    out.append(", ");
    append_total_item(&mut out, nw, "Warning");
    out.append(", ");
    append_total_item(&mut out, nn, "Notice");
    out.append("\n");
    out.append("\n");
    out.append("|Level|Message|Location|\n|:--|:--|--:|\n");
    proof {
        assert(out@ =~= "# Diagnostics\n"@ + spec_totals(vs) + "\n"@
            + "|Level|Message|Location|\n|:--|:--|--:|\n"@);
    }
    let ghost head = out@;
    let n = summaries.len();
    let mut i: usize = 0;
    while i < n
        invariant
            0 <= i <= n,
            n == summaries@.len(),
            vs == summaries_view(summaries@),
            vs.len() == n,
            out@ == head + spec_rows(vs.subrange(0, i as int)),
        decreases n - i,
    {
        append_row(&mut out, &summaries[i]);
        proof {
            let pre = vs.subrange(0, i as int);
            let post = vs.subrange(0, i + 1 as int);
            assert(post.drop_last() =~= pre);
            assert(post.last() == vs[i as int]);
            assert(out@ =~= head + spec_rows(post));
        }
        i = i + 1;
    }
    proof {
        assert(vs.subrange(0, n as int) =~= vs);
        assert(out@ =~= spec_doc(vs));
    }
    out
}

/// Renders the summary document, or nothing when no diagnostic was
/// accumulated: with zero summaries no document is produced.
pub fn render_summaries(summaries: &Vec<Summary>) -> (r: Option<String>)
    ensures
        r is Some <==> summaries@.len() > 0,
        r matches Some(d) ==> d@ == spec_doc(summaries_view(summaries@)),
{
    if summaries.len() == 0 {
        None
    } else {
        Some(render_diagnostic_summary(summaries))
    }
}

} // verus!
