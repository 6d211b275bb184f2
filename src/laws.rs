//! Properties of a run that relate several functions of the library.
use vstd::prelude::*;
use crate::ident::{normalized, is_build_id, lemma_normalize_idempotent};
use crate::introspect::{IntrospectionError, derivation_of_answer, trimmed, trim_front, trim_back};
use crate::json::{Json, flag_of, member_of};
use crate::pipeline::{Outcome, PlanView, plan_of, outcome_of_plan, failures, writes, is_failure};
use crate::record::{PackageView, manifest_view};
use crate::render::{
    dependency_links, note_stem, note_file_name, footer, available_line, lines, note,
    title_section, tag_line, info_section, long_description_section, maintainers_section, build_section,
    dependencies_section, sources_section,
};

verus! {

/// Failures add up over consecutive stretches of a run.
pub proof fn lemma_failures_add(s: Seq<Outcome>, t: Seq<Outcome>)
    ensures
        failures(s + t) == failures(s) + failures(t),
        writes(s + t) == writes(s) + writes(t),
    decreases t.len(),
{
    if t.len() == 0 {
        assert(s + t =~= s);
    } else {
        assert((s + t).drop_last() =~= s + t.drop_last());
        lemma_failures_add(s, t.drop_last());
    }
}

/// Every package of a run ends in exactly one way: its note is written, or
/// it is counted as a failure; never both, never neither.
pub proof fn lemma_one_terminal_state(outcomes: Seq<Outcome>)
    ensures
        writes(outcomes) + failures(outcomes) == outcomes.len(),
        forall|i: int| 0 <= i < outcomes.len() ==> (outcomes[i] is Written) != is_failure(#[trigger] outcomes[i]),
    decreases outcomes.len(),
{
    if outcomes.len() > 0 {
        lemma_one_terminal_state(outcomes.drop_last());
    }
}

/// A plan's outcome is a written note exactly when the plan was to write and
/// the save succeeded; every other outcome is a failure.
pub proof fn lemma_outcome_of_plan(plan: PlanView, saved: bool)
    ensures
        (outcome_of_plan(plan, saved) is Written) == (plan is Write && saved),
        is_failure(outcome_of_plan(plan, saved)) == !(plan is Write && saved),
{
}

/// Running a package twice on the same manifest entry and the same answer
/// gives the same plan, with notes that differ only in their last line, the
/// time stamp.
pub proof fn lemma_rerun_differs_only_in_timestamp(
    outdir: Seq<char>,
    name: Seq<char>,
    info: Json,
    answer: Option<Seq<char>>,
    t1: Seq<char>,
    t2: Seq<char>,
)
    ensures
        match (plan_of(outdir, name, info, answer, t1), plan_of(outdir, name, info, answer, t2)) {
            (PlanView::Write { dir: d1, path: p1, content: c1 }, PlanView::Write { dir: d2, path: p2, content: c2 }) => {
                &&& d1 == d2
                &&& p1 == p2
                &&& c1.len() >= footer(t1).len()
                &&& c2.len() >= footer(t2).len()
                &&& c1.subrange(0, c1.len() - footer(t1).len()) == c2.subrange(0, c2.len() - footer(t2).len())
                &&& c1.subrange(c1.len() - footer(t1).len(), c1.len() as int) == footer(t1)
                &&& c2.subrange(c2.len() - footer(t2).len(), c2.len() as int) == footer(t2)
            },
            (PlanView::Skip(e1), PlanView::Skip(e2)) => e1 == e2,
            _ => false,
        },
{
    match (plan_of(outdir, name, info, answer, t1), plan_of(outdir, name, info, answer, t2)) {
        (PlanView::Write { dir: d1, path: p1, content: c1 }, PlanView::Write { dir: d2, path: p2, content: c2 }) => {
            assert(c1.subrange(0, c1.len() - footer(t1).len()) =~= c2.subrange(0, c2.len() - footer(t2).len()));
            assert(c1.subrange(c1.len() - footer(t1).len(), c1.len() as int) =~= footer(t1));
            assert(c2.subrange(c2.len() - footer(t2).len(), c2.len() as int) =~= footer(t2));
        },
        _ => {},
    }
}

/// The link to dependency `i` of package `a` is the file name stem of the
/// note of a package `b` built from that dependency; for a build identifier,
/// normalizing the link once more still gives that stem. An empty identifier
/// is left out: a package without one has its note named after the package.
pub proof fn lemma_link_resolves(a: PackageView, i: int, b: PackageView)
    requires
        0 <= i < a.dependencies.len(),
        b.drv_path == a.dependencies[i],
        b.drv_path.len() > 0,
    ensures
        dependency_links(a)[i] == note_stem(b),
        note_file_name(b) == dependency_links(a)[i] + ".md"@,
        is_build_id(b.drv_path) ==> normalized(dependency_links(a)[i]) == note_stem(b),
{
    if is_build_id(b.drv_path) {
        lemma_normalize_idempotent(b.drv_path);
    }
}

/// `t` occurs in `s` at some position.
pub open spec fn occurs_in(t: Seq<char>, s: Seq<char>) -> bool {
    exists|k: int| 0 <= k && k + t.len() <= s.len() && #[trigger] s.subrange(k, k + t.len()) == t
}

/// Whatever occurs in `s` occurs in `a + s + b`.
proof fn lemma_occurs_in_middle(t: Seq<char>, a: Seq<char>, s: Seq<char>, b: Seq<char>)
    requires
        occurs_in(t, s),
    ensures
        occurs_in(t, a + s + b),
{
    let k = choose|k: int| 0 <= k && k + t.len() <= s.len() && #[trigger] s.subrange(k, k + t.len()) == t;
    let all = a + s + b;
    assert(all.subrange(a.len() + k, a.len() + k + t.len()) =~= s.subrange(k, k + t.len()));
}

/// Item `i` of `items`, between `pre` and `post`, occurs in their lines.
proof fn lemma_line_occurs(items: Seq<Seq<char>>, pre: Seq<char>, post: Seq<char>, i: int)
    requires
        0 <= i < items.len(),
    ensures
        occurs_in(pre + items[i] + post, lines(items, pre, post)),
    decreases items.len(),
{
    let t = pre + items[i] + post;
    let init = lines(items.drop_last(), pre, post);
    let all = lines(items, pre, post);
    if i == items.len() - 1 {
        assert(all.subrange(init.len() as int, (init.len() + t.len()) as int) =~= t);
    } else {
        lemma_line_occurs(items.drop_last(), pre, post, i);
        lemma_occurs_in_middle(t, seq![], init, pre + items.last() + post);
        assert(seq![] + init + (pre + items.last() + post) =~= all);
    }
}

/// The note of a package with dependency `i` holds a link line to the note
/// of a package `b` built from that dependency: `- [[stem]]`, where `stem`
/// is the stem of `b`'s file name.
pub proof fn lemma_note_links_dependency(a: PackageView, i: int, b: PackageView, timestamp: Seq<char>)
    requires
        0 <= i < a.dependencies.len(),
        b.drv_path == a.dependencies[i],
        b.drv_path.len() > 0,
    ensures
        occurs_in("- [["@ + note_stem(b) + "]]\n"@, note(a, timestamp)),
{
    let t = "- [["@ + note_stem(b) + "]]\n"@;
    let links = dependency_links(a);
    lemma_line_occurs(links, "- [["@, "]]\n"@, i);
    let head = "## 🔗 Dependencies\n\n"@;
    lemma_occurs_in_middle(t, head, lines(links, "- [["@, "]]\n"@), "\n"@);
    let before = title_section(a) + tag_line(a) + info_section(a) + long_description_section(a)
        + maintainers_section(a) + build_section(a);
    let after = sources_section(a) + "---\n"@ + footer(timestamp);
    lemma_occurs_in_middle(t, before, dependencies_section(a), after);
    assert(before + dependencies_section(a) + after =~= note(a, timestamp));
}

/// A query that fails, or that answers `{}` (as a query that timed out
/// does), plans no note, and its outcome is one failure more; the other
/// packages of the run count as before.
pub proof fn lemma_failed_query_writes_nothing(
    outdir: Seq<char>,
    name: Seq<char>,
    info: Json,
    answer: Option<Seq<char>>,
    timestamp: Seq<char>,
    saved: bool,
    before: Seq<Outcome>,
    after: Seq<Outcome>,
)
    requires
        answer matches Some(text) ==> trimmed(text) == "{}"@,
    ensures
        plan_of(outdir, name, info, answer, timestamp) is Skip,
        failures(before + seq![outcome_of_plan(plan_of(outdir, name, info, answer, timestamp), saved)] + after)
            == failures(before) + 1 + failures(after),
        writes(before + seq![outcome_of_plan(plan_of(outdir, name, info, answer, timestamp), saved)] + after)
            == writes(before) + writes(after),
{
    reveal_strlit("{}");
    let o = outcome_of_plan(plan_of(outdir, name, info, answer, timestamp), saved);
    lemma_failures_add(before, seq![o]);
    lemma_failures_add(before + seq![o], after);
    assert(o is IntrospectionFailed);
    assert(seq![o].drop_last() =~= Seq::<Outcome>::empty());
    assert(seq![o].len() == 1 && seq![o].last() == o);
    assert(failures(Seq::<Outcome>::empty()) == 0 && writes(Seq::<Outcome>::empty()) == 0);
    assert(failures(seq![o]) == 1);
    assert(writes(seq![o]) == 0);
}

/// The answer `{}` reads as no derivation.
pub proof fn lemma_empty_object_answer()
    ensures
        derivation_of_answer("{}"@) == Err::<crate::record::DerivationView, IntrospectionError>(IntrospectionError::NoDerivation),
{
    reveal_strlit("{}");
    let s = "{}"@;
    assert(trim_front(s) == s);
    assert(trim_back(s) == s);
}

/// A package's `available` is the negation of the manifest's raw
/// `meta.available` flag, and its note says so: a raw `true` shows as not
/// available.
pub proof fn lemma_available_negates_raw(name: Seq<char>, info: Json)
    ensures
        flag_of(member_of(member_of(Some(info), "meta"@), "available"@)) matches Some(raw)
            ==> manifest_view(name, info).available == !raw,
        flag_of(member_of(member_of(Some(info), "meta"@), "available"@)) == Some(true)
            ==> available_line(manifest_view(name, info)) == "- **Available**: "@ + "❌ No"@ + "\n"@,
{
}

} // verus!
