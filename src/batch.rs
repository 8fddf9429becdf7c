use vstd::prelude::*;

use crate::project::ProjectOutcome;

verus! {

/// The mathematical form of a [`ProjectOutcome`]: name, success, message.
pub type OutcomeView = (Seq<char>, bool, Seq<char>);

impl View for ProjectOutcome {
    type V = OutcomeView;

    open spec fn view(&self) -> OutcomeView {
        (self.name@, self.succeeded, self.message@)
    }
}

/// The outcomes of a batch of projects, each under the position of its
/// project in the input, in the order in which they were recorded.
pub struct BatchReport {
    pub entries: Vec<(usize, ProjectOutcome)>,
}

impl View for BatchReport {
    type V = Seq<(nat, OutcomeView)>;

    open spec fn view(&self) -> Seq<(nat, OutcomeView)> {
        self.entries@.map_values(|e: (usize, ProjectOutcome)| (e.0 as nat, e.1@))
    }
}

/// The report of a batch whose projects finished in `order`, project `i`
/// having ended with `outcomes[i]`.
pub open spec fn report_of(outcomes: Seq<OutcomeView>, order: Seq<nat>) -> Seq<(nat, OutcomeView)> {
    order.map_values(|i: nat| (i, outcomes[i as int]))
}

/// The input order of a batch of `n` projects.
pub open spec fn input_order(n: nat) -> Seq<nat> {
    Seq::new(n, |i: int| i as nat)
}

impl BatchReport {
    pub fn new() -> (r: BatchReport)
        ensures
            r@ == Seq::<(nat, OutcomeView)>::empty(),
    {
        BatchReport { entries: Vec::new() }
    }

    /// Adds the outcome of the project at position `index` of the input.
    pub fn record(&mut self, index: usize, outcome: ProjectOutcome)
        ensures
            final(self)@ == old(self)@.push((index as nat, outcome@)),
    {
        let ghost pre = self.entries@;
        let ghost v = outcome@;
        self.entries.push((index, outcome));
        assert(self@ =~= pre.map_values(|e: (usize, ProjectOutcome)| (e.0 as nat, e.1@)).push(
            (index as nat, v),
        ));
    }

    pub fn len(&self) -> (r: usize)
        ensures
            r == self@.len(),
    {
        self.entries.len()
    }
}

/// Recording one more finished project extends the report by its entry.
pub proof fn lemma_report_push(outcomes: Seq<OutcomeView>, order: Seq<nat>, k: nat)
    ensures
        report_of(outcomes, order.push(k)) == report_of(outcomes, order).push((k, outcomes[k as int])),
{
    assert(report_of(outcomes, order.push(k)) =~= report_of(outcomes, order).push(
        (k, outcomes[k as int]),
    ));
}

/// A batch run in input order reports each project at its own position.
pub proof fn lemma_sequential_keeps_order(outcomes: Seq<OutcomeView>)
    ensures
        report_of(outcomes, input_order(outcomes.len())).len() == outcomes.len(),
        forall|i: int|
            0 <= i < outcomes.len() ==> #[trigger] report_of(outcomes, input_order(outcomes.len()))[i]
                == (i as nat, outcomes[i]),
{
}

/// Whatever order the projects of a batch finish in, its report holds the
/// same entries as the report of the batch run in input order.
pub proof fn lemma_any_order_same_entries(outcomes: Seq<OutcomeView>, order: Seq<nat>)
    requires
        forall|i: nat| i < outcomes.len() <==> order.contains(i),
    ensures
        report_of(outcomes, order).to_set() == report_of(outcomes, input_order(outcomes.len())).to_set(),
{
    let n = outcomes.len();
    let a = report_of(outcomes, order);
    let b = report_of(outcomes, input_order(n));
    assert forall|x: (nat, OutcomeView)| a.to_set().contains(x) implies b.to_set().contains(x) by {
        let j = choose|j: int| 0 <= j < a.len() && a[j] == x;
        assert(order.contains(order[j]));
        assert(b[order[j] as int] == x);
    }
    assert forall|x: (nat, OutcomeView)| b.to_set().contains(x) implies a.to_set().contains(x) by {
        let i = choose|i: int| 0 <= i < b.len() && b[i] == x;
        assert(order.contains(i as nat));
        let j = choose|j: int| 0 <= j < order.len() && order[j] == i as nat;
        assert(a[j] == x);
    }
    assert(a.to_set() =~= b.to_set());
}

} // verus!
