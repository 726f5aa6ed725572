use vstd::prelude::*;

use crate::error::{Error, ErrorKind};
use crate::jobs::{
    first_named, get_item_with_name, has_named, is_first_named, Item, Jobs, lemma_first_named,
};
use crate::text::{decimal, push_decimal};

verus! {

/// How a migration workflow compares with a base workflow over one window.
/// Each differential is the migration value minus the base value, so a
/// negative one means the migration is faster.
#[derive(Debug)]
pub struct Insight {
    pub base_job: String,
    pub migration_job: String,
    pub min_differential: i128,
    pub mean_differential: i128,
    pub median_differential: i128,
    pub max_differential: i128,
    pub window_start: String,
    pub window_end: String,
}

/// An insight as mathematical values.
pub struct InsightView {
    pub base_job: Seq<char>,
    pub migration_job: Seq<char>,
    pub min_differential: int,
    pub mean_differential: int,
    pub median_differential: int,
    pub max_differential: int,
    pub window_start: Seq<char>,
    pub window_end: Seq<char>,
}

impl View for Insight {
    type V = InsightView;

    open spec fn view(&self) -> InsightView {
        InsightView {
            base_job: self.base_job@,
            migration_job: self.migration_job@,
            min_differential: self.min_differential as int,
            mean_differential: self.mean_differential as int,
            median_differential: self.median_differential as int,
            max_differential: self.max_differential as int,
            window_start: self.window_start@,
            window_end: self.window_end@,
        }
    }
}

/// The comparison of sample `migration` with sample `base`: the four
/// differentials of their duration statistics, and the window of the
/// migration sample.
pub open spec fn differential(
    migration_name: Seq<char>,
    base_name: Seq<char>,
    migration: Item,
    base: Item,
) -> InsightView {
    let m = migration.metrics.duration_metrics;
    let b = base.metrics.duration_metrics;
    InsightView {
        base_job: base_name,
        migration_job: migration_name,
        min_differential: m.min - b.min,
        mean_differential: m.mean - b.mean,
        median_differential: m.median - b.median,
        max_differential: m.max - b.max,
        window_start: migration.window_start@,
        window_end: migration.window_end@,
    }
}

/// The message of the error for a workflow missing from a report.
pub open spec fn not_found_message(name: Seq<char>) -> Seq<char> {
    "failed to find workflow "@ + name + " in retrieved jobs"@
}

/// What comparing the workflow named `migration` with the one named `base`
/// in `items` gives: the first sample of each name is used, and a missing
/// base is reported before a missing migration.
pub open spec fn insight_of(migration: Seq<char>, base: Seq<char>, items: Seq<Item>) -> Result<
    InsightView,
    (ErrorKind, Seq<char>),
> {
    if !has_named(items, base) {
        Err((ErrorKind::InvalidInput, not_found_message(base)))
    } else if !has_named(items, migration) {
        Err((ErrorKind::InvalidInput, not_found_message(migration)))
    } else {
        Ok(
            differential(
                migration,
                base,
                items[first_named(items, migration)],
                items[first_named(items, base)],
            ),
        )
    }
}

/// Whether an executable result stands for the given comparison result.
pub open spec fn insight_result_matches(
    r: Result<Insight, Error>,
    expected: Result<InsightView, (ErrorKind, Seq<char>)>,
) -> bool {
    match r {
        Ok(i) => expected == Ok::<InsightView, (ErrorKind, Seq<char>)>(i@),
        Err(e) => expected == Err::<InsightView, (ErrorKind, Seq<char>)>(e@),
    }
}

fn not_found_error(name: &String) -> (r: Error)
    ensures
        r@ == (ErrorKind::InvalidInput, not_found_message(name@)),
{
    let mut message = String::from_str("failed to find workflow ");
    message.append(name.as_str());
    message.append(" in retrieved jobs");
    Error::new(ErrorKind::InvalidInput, message)
}

/// Compares workflows within a job-metrics report.
#[derive(Debug)]
pub struct Analysis {}

impl Analysis {
    /// Compares the first sample named `migration_job_name` in `jobs` with
    /// the first one named `base_job_name`.
    pub fn get_insights(
        &self,
        migration_job_name: &String,
        base_job_name: &String,
        jobs: &Jobs,
    ) -> (r: Result<Insight, Error>)
        ensures
            insight_result_matches(r, insight_of(migration_job_name@, base_job_name@, jobs.items@)),
    {
        let base = match get_item_with_name(&jobs.items, base_job_name) {
            Some(item) => item,
            None => {
                return Err(not_found_error(base_job_name));
            },
        };
        let migration = match get_item_with_name(&jobs.items, migration_job_name) {
            Some(item) => item,
            None => {
                return Err(not_found_error(migration_job_name));
            },
        };
        let m = migration.metrics.duration_metrics;
        let b = base.metrics.duration_metrics;
        let insight = Insight {
            base_job: base_job_name.clone(),
            migration_job: migration_job_name.clone(),
            min_differential: m.min as i128 - b.min as i128,
            mean_differential: m.mean as i128 - b.mean as i128,
            median_differential: m.median as i128 - b.median as i128,
            max_differential: m.max as i128 - b.max as i128,
            window_start: migration.window_start.clone(),
            window_end: migration.window_end.clone(),
        };
        assert(insight@ == differential(migration_job_name@, base_job_name@, *migration, *base));
        Ok(insight)
    }
}

/// The text of the report on an insight.
pub open spec fn report_text(v: InsightView) -> Seq<char> {
    "\n        Migration analysis:\n\n        Details:\n\n            base job: "@ + v.base_job
        + "\n            migration job: "@ + v.migration_job + "\n            window start: "@
        + v.window_start + "\n            window end: "@ + v.window_end
        + "\n\n        Data:\n\n            minimum duration - differential: "@ + decimal(
        v.min_differential,
    ) + "\n            maximum duration - differential: "@ + decimal(v.max_differential)
        + "\n            mean duration - differential: "@ + decimal(v.mean_differential)
        + "\n            median duration - differential: "@ + decimal(v.median_differential)
        + "\n        "@
}

impl Insight {
    /// The multi-line report on this insight.
    pub fn to_string(&self) -> (r: String)
        ensures
            r@ == report_text(self@),
    {
        let mut r = String::from_str(
            "\n        Migration analysis:\n\n        Details:\n\n            base job: ",
        );
        r.append(self.base_job.as_str());
        r.append("\n            migration job: ");
        r.append(self.migration_job.as_str());
        r.append("\n            window start: ");
        r.append(self.window_start.as_str());
        r.append("\n            window end: ");
        r.append(self.window_end.as_str());
        r.append("\n\n        Data:\n\n            minimum duration - differential: ");
        push_decimal(&mut r, self.min_differential);
        r.append("\n            maximum duration - differential: ");
        push_decimal(&mut r, self.max_differential);
        r.append("\n            mean duration - differential: ");
        push_decimal(&mut r, self.mean_differential);
        r.append("\n            median duration - differential: ");
        push_decimal(&mut r, self.median_differential);
        r.append("\n        ");
        r
    }
}

/// The workflow whose migration the command-line tool reports on.
pub open spec fn migration_workflow() -> Seq<char> {
    "bazel_build"@
}

/// The workflow that the migration is compared with.
pub open spec fn base_workflow() -> Seq<char> {
    "cmake_build"@
}

/// Compares the `bazel_build` workflow of a report with its `cmake_build`
/// workflow.
pub fn get_jobs_insights(jobs: &Jobs) -> (r: Result<Insight, Error>)
    ensures
        insight_result_matches(r, insight_of(migration_workflow(), base_workflow(), jobs.items@)),
{
    let migration = String::from_str("bazel_build");
    let base = String::from_str("cmake_build");
    Analysis {}.get_insights(&migration, &base, jobs)
}

/// For two samples that each come first under their own, distinct names,
/// comparing the second with the first succeeds: each differential is the
/// second sample's statistic minus the first one's, and the window is the
/// second sample's.
pub proof fn lemma_insight_of_two_samples(items: Seq<Item>, a: int, b: int)
    requires
        is_first_named(items, items[a].name@, a),
        is_first_named(items, items[b].name@, b),
        items[a].name@ != items[b].name@,
    ensures
        insight_of(items[b].name@, items[a].name@, items) is Ok,
        ({
            let v = insight_of(items[b].name@, items[a].name@, items)->Ok_0;
            let da = items[a].metrics.duration_metrics;
            let db = items[b].metrics.duration_metrics;
            &&& v.min_differential == db.min - da.min
            &&& v.mean_differential == db.mean - da.mean
            &&& v.median_differential == db.median - da.median
            &&& v.max_differential == db.max - da.max
            &&& v.window_start == items[b].window_start@
            &&& v.window_end == items[b].window_end@
            &&& v.base_job == items[a].name@
            &&& v.migration_job == items[b].name@
        }),
{
    let na = items[a].name@;
    let nb = items[b].name@;
    assert(has_named(items, na));
    assert(has_named(items, nb));
    lemma_first_named(items, na);
    lemma_first_named(items, nb);
}

/// A base workflow that the report lacks (in particular, any base workflow
/// of an empty report) is reported as not found, whatever the migration.
pub proof fn lemma_missing_base(migration: Seq<char>, base: Seq<char>, items: Seq<Item>)
    requires
        items.len() == 0 || !has_named(items, base),
    ensures
        insight_of(migration, base, items) == Err::<InsightView, (ErrorKind, Seq<char>)>(
            (ErrorKind::InvalidInput, not_found_message(base)),
        ),
{
}

/// With the base workflow present, a migration workflow that the report
/// lacks is reported as not found.
pub proof fn lemma_missing_migration(migration: Seq<char>, base: Seq<char>, items: Seq<Item>)
    requires
        has_named(items, base),
        !has_named(items, migration),
    ensures
        insight_of(migration, base, items) == Err::<InsightView, (ErrorKind, Seq<char>)>(
            (ErrorKind::InvalidInput, not_found_message(migration)),
        ),
{
}

} // verus!
