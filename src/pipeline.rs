//! The decisions of a run: which packages to take, how many workers, what to
//! do with each package once its query has answered, and the tally of
//! outcomes. Queries, file writes and threads are the caller's.
use vstd::prelude::*;
use crate::introspect::{IntrospectionError, derivation_of_query, derivation_from_query};
use crate::json::{Json, json_of_text, member_of, parse_json};
use crate::record::{PackageRecord, enriched_view, manifest_view};
use crate::render::{note, note_path_of, packages_dir_of, render_note, note_path, packages_dir};

verus! {

/// Why the manifest cannot be read. Either ends the run before any package.
#[derive(Debug, Clone, Copy, PartialEq, Eq, Structural)]
pub enum ManifestError {
    /// The manifest is not JSON.
    NotJson,
    /// The manifest has no `packages` object.
    NoPackages,
}

/// How one package ended: exactly one of these per package.
#[derive(Debug, Clone, Copy, PartialEq, Eq, Structural)]
pub enum Outcome {
    /// Its note was written.
    Written,
    /// Its derivation could not be read; no note was written.
    IntrospectionFailed(IntrospectionError),
    /// Its note could not be saved.
    SaveFailed,
}

/// What to do with one package once its query has answered.
pub enum Plan {
    /// Make sure `dir` exists, then write `content` to `path`.
    Write { dir: String, path: String, content: String },
    /// Write nothing: the derivation could not be read.
    Skip(IntrospectionError),
}

/// A plan as plain values.
pub enum PlanView {
    Write { dir: Seq<char>, path: Seq<char>, content: Seq<char> },
    Skip(IntrospectionError),
}

/// Counts over a run: packages in the run, packages finished, and how many of
/// those failed.
pub struct Progress {
    pub total: usize,
    pub processed: usize,
    pub failed: usize,
}

/// Whether an outcome counts as a failure.
pub open spec fn is_failure(o: Outcome) -> bool {
    !(o is Written)
}

/// The number of failures among `s`.
pub open spec fn failures(s: Seq<Outcome>) -> nat
    decreases s.len(),
{
    if s.len() == 0 {
        0
    } else {
        failures(s.drop_last()) + if is_failure(s.last()) { 1nat } else { 0nat }
    }
}

/// The number of notes written among `s`.
pub open spec fn writes(s: Seq<Outcome>) -> nat
    decreases s.len(),
{
    if s.len() == 0 {
        0
    } else {
        writes(s.drop_last()) + if s.last() is Written { 1nat } else { 0nat }
    }
}

/// The manifest that `text` holds, where it has a `packages` object.
pub open spec fn manifest_of_text(text: Seq<char>) -> Result<Json, ManifestError> {
    match json_of_text(text) {
        None => Err(ManifestError::NotJson),
        Some(j) => match member_of(Some(j), "packages"@) {
            Some(Json::Object(_)) => Ok(j),
            _ => Err(ManifestError::NoPackages),
        },
    }
}

/// What to do with package `name` of the manifest, described by `info`, given
/// its query's answer (`None` for a query that did not succeed), at
/// `timestamp`: write its note where a derivation could be read, else nothing.
pub open spec fn plan_of(
    outdir: Seq<char>,
    name: Seq<char>,
    info: Json,
    answer: Option<Seq<char>>,
    timestamp: Seq<char>,
) -> PlanView {
    match derivation_of_query(answer) {
        Err(e) => PlanView::Skip(e),
        Ok(d) => {
            let p = enriched_view(manifest_view(name, info), d);
            PlanView::Write {
                dir: packages_dir_of(outdir),
                path: note_path_of(outdir, p),
                content: note(p, timestamp),
            }
        },
    }
}

/// The outcome of carrying out a plan, where `saved` tells whether the note
/// could be saved.
pub open spec fn outcome_of_plan(plan: PlanView, saved: bool) -> Outcome {
    match plan {
        PlanView::Skip(e) => Outcome::IntrospectionFailed(e),
        PlanView::Write { .. } => if saved { Outcome::Written } else { Outcome::SaveFailed },
    }
}

/// The view of an optional text.
pub open spec fn answer_view(answer: Option<&str>) -> Option<Seq<char>> {
    match answer {
        Some(t) => Some(t@),
        None => None,
    }
}

impl View for Plan {
    type V = PlanView;

    open spec fn view(&self) -> PlanView {
        match self {
            Plan::Write { dir, path, content } => PlanView::Write { dir: dir@, path: path@, content: content@ },
            Plan::Skip(e) => PlanView::Skip(*e),
        }
    }
}

/// Reads the manifest from its text.
pub fn parse_manifest(text: &str) -> (r: Result<Json, ManifestError>)
    ensures
        r == manifest_of_text(text@),
{
    match parse_json(text) {
        None => Err(ManifestError::NotJson),
        Some(j) => {
            let is_object = match j.member("packages") {
                Some(Json::Object(_)) => true,
                _ => false,
            };
            if is_object {
                Ok(j)
            } else {
                Err(ManifestError::NoPackages)
            }
        },
    }
}

/// The packages of a manifest: name and description of each, in order.
pub fn package_entries(manifest: &Json) -> (r: Option<&Vec<(String, Json)>>)
    ensures
        match member_of(Some(*manifest), "packages"@) {
            Some(Json::Object(entries)) => r matches Some(v) && *v == entries,
            _ => r is None,
        },
{
    match manifest.member("packages") {
        Some(Json::Object(entries)) => Some(entries),
        _ => None,
    }
}

/// How many of `total` packages a run takes: the first `limit`, where a
/// limit is set (not 0) and smaller, else all.
pub fn selected_count(total: usize, limit: usize) -> (r: usize)
    ensures
        r == if limit > 0 && limit < total { limit } else { total },
{
    if limit > 0 && limit < total {
        limit
    } else {
        total
    }
}

/// Relies on num_cpus::get: the number of CPUs this process may use, which
/// is at least 1.
#[verifier::external_body]
fn available_cpus() -> (r: usize)
    ensures
        r >= 1,
{
    num_cpus::get()
}

/// How many workers a run uses: the number asked for, or, where that is 0,
/// as many as there are CPUs to use.
pub fn worker_count(requested: usize) -> (r: usize)
    ensures
        r >= 1,
        requested > 0 ==> r == requested,
{
    if requested == 0 {
        available_cpus()
    } else {
        requested
    }
}

/// What to do with package `name`, described by `info`, given its query's
/// answer (`None` for a query that did not succeed), at `timestamp`.
pub fn plan_package(
    outdir: &str,
    name: &str,
    info: &Json,
    answer: Option<&str>,
    timestamp: &str,
) -> (r: Plan)
    ensures
        r@ == plan_of(outdir@, name@, *info, answer_view(answer), timestamp@),
{
    match derivation_from_query(answer) {
        Err(e) => Plan::Skip(e),
        Ok(d) => {
            let mut record = PackageRecord::from_manifest(name, info);
            record.enrich(d);
            let content = render_note(&record, timestamp);
            Plan::Write { dir: packages_dir(outdir), path: note_path(outdir, &record), content }
        },
    }
}

/// The outcome of carrying out `plan`, where `saved` tells whether the note
/// could be saved.
pub fn outcome_of(plan: &Plan, saved: bool) -> (r: Outcome)
    ensures
        r == outcome_of_plan(plan@, saved),
{
    match plan {
        Plan::Skip(e) => Outcome::IntrospectionFailed(*e),
        Plan::Write { .. } => if saved {
            Outcome::Written
        } else {
            Outcome::SaveFailed
        },
    }
}

impl Outcome {
    /// Whether this outcome counts as a failure.
    pub fn is_failure(&self) -> (r: bool)
        ensures
            r == is_failure(*self),
    {
        match self {
            Outcome::Written => false,
            _ => true,
        }
    }
}

impl Progress {
    /// The counts never run past each other.
    pub open spec fn wf(&self) -> bool {
        self.failed <= self.processed <= self.total
    }

    /// The counts of a run of `total` packages before any has finished.
    pub fn new(total: usize) -> (r: Progress)
        ensures
            r.wf(),
            r.total == total,
            r.processed == 0,
            r.failed == 0,
    {
        Progress { total, processed: 0, failed: 0 }
    }

    /// Counts one more finished package with outcome `o`.
    pub fn record(&mut self, o: &Outcome)
        requires
            old(self).wf(),
            old(self).processed < old(self).total,
        ensures
            final(self).wf(),
            final(self).total == old(self).total,
            final(self).processed == old(self).processed + 1,
            final(self).failed == old(self).failed + if is_failure(*o) { 1int } else { 0int },
    {
        self.processed = self.processed + 1;
        if o.is_failure() {
            self.failed = self.failed + 1;
        }
    }

    /// How many notes were written.
    pub fn written(&self) -> (r: usize)
        requires
            self.wf(),
        ensures
            r == self.processed - self.failed,
    {
        self.processed - self.failed
    }

    /// Whether every package has finished.
    pub fn is_done(&self) -> (r: bool)
        ensures
            r == (self.processed == self.total),
    {
        self.processed == self.total
    }
}

/// The counts over the outcomes of a whole run.
pub fn summarize(outcomes: &Vec<Outcome>) -> (r: Progress)
    ensures
        r.wf(),
        r.total == outcomes@.len(),
        r.processed == outcomes@.len(),
        r.failed == failures(outcomes@),
        r.processed - r.failed == writes(outcomes@),
{
    let n = outcomes.len();
    let mut p = Progress::new(n);
    let mut i: usize = 0;
    while i < n
        invariant
            n == outcomes@.len(),
            i <= n,
            p.wf(),
            p.total == n,
            p.processed == i,
            p.failed == failures(outcomes@.subrange(0, i as int)),
            p.processed - p.failed == writes(outcomes@.subrange(0, i as int)),
        decreases n - i,
    {
        assert(outcomes@.subrange(0, i + 1).drop_last() =~= outcomes@.subrange(0, i as int));
        p.record(&outcomes[i]);
        i = i + 1;
    }
    assert(outcomes@.subrange(0, n as int) =~= outcomes@);
    p
}

} // verus!
