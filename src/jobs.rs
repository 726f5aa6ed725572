use vstd::prelude::*;

verus! {

/// `serde_json::Value`, carried through unread as the report's continuation
/// token.
#[verifier::external_type_specification]
#[verifier::external_body]
pub struct ExJsonValue(serde_json::Value);

/// A job-metrics report: one page of workflow samples.
#[derive(Debug)]
pub struct Jobs {
    pub next_page_token: Option<serde_json::Value>,
    pub items: Vec<Item>,
}

/// The metrics of one named workflow over a reporting window.
#[derive(Debug)]
pub struct Item {
    pub name: String,
    pub metrics: Metrics,
    pub window_start: String,
    pub window_end: String,
}

/// Aggregate run statistics of a workflow. The fractional statistics are
/// held as the bit patterns of their `f64` values (`f64::to_bits`).
#[derive(Debug, Clone, Copy)]
pub struct Metrics {
    pub total_runs: u64,
    pub failed_runs: u64,
    pub successful_runs: u64,
    pub median_credits_used: u64,
    pub duration_metrics: DurationMetrics,
    pub success_rate_bits: u64,
    pub total_credits_used: u64,
    pub throughput_bits: u64,
}

/// Duration statistics of a workflow's runs. The standard deviation is held
/// as the bit pattern of its `f64` value (`f64::to_bits`).
#[derive(Debug, Clone, Copy)]
pub struct DurationMetrics {
    pub min: u64,
    pub mean: u64,
    pub median: u64,
    pub p95: u64,
    pub max: u64,
    pub standard_deviation_bits: u64,
    pub total_duration: u64,
}

/// Whether some sample of `items` is named `name`.
pub open spec fn has_named(items: Seq<Item>, name: Seq<char>) -> bool {
    exists|i: int| 0 <= i < items.len() && #[trigger] items[i].name@ == name
}

/// Whether `i` is the position of the first sample of `items` named `name`.
pub open spec fn is_first_named(items: Seq<Item>, name: Seq<char>, i: int) -> bool {
    &&& 0 <= i < items.len()
    &&& items[i].name@ == name
    &&& forall|j: int| 0 <= j < i ==> #[trigger] items[j].name@ != name
}

/// The position of the first sample of `items` named `name`; meaningful
/// where `has_named(items, name)`.
pub open spec fn first_named(items: Seq<Item>, name: Seq<char>) -> int {
    choose|i: int| is_first_named(items, name, i)
}

/// A name that occurs in a sequence occurs a first time.
pub proof fn lemma_first_named(items: Seq<Item>, name: Seq<char>)
    requires
        has_named(items, name),
    ensures
        is_first_named(items, name, first_named(items, name)),
    decreases items.len(),
{
    if items[0].name@ == name {
        assert(is_first_named(items, name, 0));
    } else {
        let rest = items.drop_first();
        let i = choose|i: int| 0 <= i < items.len() && #[trigger] items[i].name@ == name;
        assert(rest[i - 1].name@ == name);
        lemma_first_named(rest, name);
        let k = first_named(rest, name);
        assert forall|j: int| 0 <= j < k + 1 implies #[trigger] items[j].name@ != name by {
            if j > 0 {
                assert(items[j] == rest[j - 1]);
            }
        }
        assert(is_first_named(items, name, k + 1));
    }
}

/// Finds the first sample of `items` named `name` (exact, case-sensitive
/// comparison).
pub fn get_item_with_name<'a>(items: &'a Vec<Item>, name: &String) -> (r: Option<&'a Item>)
    ensures
        r is None <==> !has_named(items@, name@),
        r is Some ==> r->Some_0 == items@[first_named(items@, name@)],
        r is Some ==> has_named(items@, name@),
{
    let mut i: usize = 0;
    while i < items.len()
        invariant
            0 <= i <= items@.len(),
            forall|j: int| 0 <= j < i ==> #[trigger] items@[j].name@ != name@,
        decreases items@.len() - i,
    {
        if items[i].name == *name {
            proof {
                assert(is_first_named(items@, name@, i as int));
                lemma_first_named(items@, name@);
            }
            return Some(&items[i]);
        }
        i = i + 1;
    }
    None
}

} // verus!
