//! The run driver: threads parsed messages through annotation building,
//! deduplication and summary accumulation, and decides the run's outcome.

use crate::cargo::CargoMessage;
use crate::dedup::{spec_contains, DedupSet};
use crate::github::{
    has_primary, kind_rank, spec_annotation_of, spec_kind_max, spec_render, Annotation,
    AnnotationKind,
};
use crate::summary::{render_summaries, spec_doc, spec_summary_of, summaries_view, Summary};
use vstd::prelude::*;

verus! {

/// The mutable state of one run: the failure threshold, the most severe kind
/// seen among emitted annotations, the accumulated summaries, and the dedup
/// set. Owned exclusively by the driver for the lifetime of one invocation.
pub struct RunState {
    /// The kind at or above which the run is reported as failed
    pub threshold: AnnotationKind,
    /// The most severe kind among the annotations emitted so far
    pub max_kind: AnnotationKind,
    /// One summary per emitted annotation, in arrival order
    pub summaries: Vec<Summary>,
    /// The annotations emitted so far
    pub annotations: DedupSet,
}

impl RunState {
    /// A fresh run. By default warnings fail the run; when warnings are
    /// explicitly tolerated, only errors do.
    pub fn new(allow_warnings: bool) -> (r: RunState)
        ensures
            r.threshold == if allow_warnings {
                AnnotationKind::Error
            } else {
                AnnotationKind::Warning
            },
            r.max_kind == AnnotationKind::Notice,
            r.summaries@.len() == 0,
            r.annotations@.len() == 0,
    {
        RunState {
            threshold: if allow_warnings {
                AnnotationKind::Error
            } else {
                AnnotationKind::Warning
            },
            max_kind: AnnotationKind::Notice,
            summaries: Vec::new(),
            annotations: DedupSet::new(),
        }
    }

    /// Processes one parsed message. When the diagnostic has a primary span
    /// and its annotation was not seen before, the annotation is recorded,
    /// the maximum kind raised, the summary accumulated, and the canonical
    /// line returned for immediate emission; otherwise nothing changes and
    /// nothing is emitted.
    pub fn process(&mut self, message: CargoMessage) -> (r: Option<String>)
        ensures
            final(self).threshold == old(self).threshold,
            ({
                let d = message@;
                let a = spec_annotation_of(d);
                if has_primary(d.spans) && !spec_contains(old(self).annotations@, a) {
                    &&& r matches Some(line) && line@ == spec_render(a)
                    &&& final(self).annotations@ == old(self).annotations@.push(a)
                    &&& summaries_view(final(self).summaries@) == summaries_view(
                        old(self).summaries@,
                    ).push(spec_summary_of(d))
                    &&& final(self).max_kind == spec_kind_max(old(self).max_kind, a.kind)
                } else {
                    &&& r is None
                    &&& final(self).annotations@ == old(self).annotations@
                    &&& final(self).summaries@ == old(self).summaries@
                    &&& final(self).max_kind == old(self).max_kind
                }
            }),
    {
        let summary = Summary::of_message(&message);
        let annotation = match Annotation::try_from(message) {
            Ok(a) => a,
            Err(_) => {
                return None;
            },
        };
        let line = annotation.render();
        let kind = annotation.kind;
        let ghost pre = summaries_view(self.summaries@);
        if self.annotations.insert(annotation) {
            self.max_kind = self.max_kind.max(kind);
            self.summaries.push(summary);
            proof {
                assert(summaries_view(self.summaries@) =~= pre.push(summary@));
            }
            Some(line)
        } else {
            None
        }
    }

    /// Whether the run failed: the maximum kind observed has reached the
    /// threshold.
    pub fn failed(&self) -> (r: bool)
        ensures
            r == (kind_rank(self.max_kind) >= kind_rank(self.threshold)),
    {
        self.max_kind.ge(&self.threshold)
    }

    /// The markdown summary document of the run, or nothing when no
    /// annotation was emitted.
    pub fn summary_document(&self) -> (r: Option<String>)
        ensures
            r is Some <==> self.summaries@.len() > 0,
            r matches Some(d) ==> d@ == spec_doc(summaries_view(self.summaries@)),
    {
        render_summaries(&self.summaries)
    }
}

/// Threshold behavior, for either configurable threshold — the default
/// (`Warning`) or the relaxed one (`Error`): a run whose maximum kind is
/// `Notice` succeeds; one whose maximum is `Warning` fails exactly under the
/// default threshold; one whose maximum is `Error` always fails.
pub proof fn lemma_threshold_behavior(threshold: AnnotationKind)
    requires
        threshold == AnnotationKind::Warning || threshold == AnnotationKind::Error,
    ensures
        !(kind_rank(AnnotationKind::Notice) >= kind_rank(threshold)),
        (kind_rank(AnnotationKind::Warning) >= kind_rank(threshold)) <==> threshold
            == AnnotationKind::Warning,
        kind_rank(AnnotationKind::Error) >= kind_rank(threshold),
{
}

} // verus!
