//! Promise bookkeeping for test runs: how many promises each test created and settled, so
//! that a test that leaves promises pending can be reported.
use vstd::prelude::*;
use std::collections::BTreeSet;

verus! {

broadcast use {vstd::std_specs::btree::group_btree_axioms, vstd::laws_cmp::group_laws_cmp};

/// The promises of one test.
pub struct PromiseMetricsSummary {
    pub test_name: String,
    pub promises_initialized: u64,
    pub promises_resolved: u64,
    /// The ids of the promises that were created and have not settled.
    pub promises: BTreeSet<i32>,
}

impl PromiseMetricsSummary {
    pub open spec fn spec_promises(&self) -> Set<i32> {
        self.promises@
    }

    /// A summary with no promises, for the test `test_name`.
    pub fn with_name(test_name: String) -> (r: PromiseMetricsSummary)
        ensures
            r.test_name@ == test_name@,
            r.promises_initialized == 0,
            r.promises_resolved == 0,
            r.spec_promises() == Set::<i32>::empty(),
    {
        PromiseMetricsSummary {
            test_name,
            promises_initialized: 0,
            promises_resolved: 0,
            promises: BTreeSet::new(),
        }
    }

    /// Whether more promises were created than settled.
    pub fn has_pending_promises(&self) -> (r: bool)
        ensures
            r == (self.promises_initialized > self.promises_resolved),
    {
        self.promises_initialized > self.promises_resolved
    }

    /// Whether the promise `promise_id` was created and has not settled.
    pub fn contains(&self, promise_id: i32) -> (r: bool)
        ensures
            r == self.spec_promises().contains(promise_id),
    {
        self.promises.contains(&promise_id)
    }

    /// Records that the promise `promise_id` was created.
    pub fn initialized(&mut self, promise_id: i32)
        requires
            old(self).promises_initialized < u64::MAX,
        ensures
            final(self).promises_initialized == old(self).promises_initialized + 1,
            final(self).promises_resolved == old(self).promises_resolved,
            final(self).test_name == old(self).test_name,
            final(self).spec_promises() == old(self).spec_promises().insert(promise_id),
    {
        self.promises_initialized = self.promises_initialized + 1;
        self.promises.insert(promise_id);
    }

    /// Records that the promise `promise_id` settled.
    pub fn resolved(&mut self, promise_id: i32)
        requires
            old(self).promises_resolved < u64::MAX,
        ensures
            final(self).promises_resolved == old(self).promises_resolved + 1,
            final(self).promises_initialized == old(self).promises_initialized,
            final(self).test_name == old(self).test_name,
            final(self).spec_promises() == old(self).spec_promises().remove(promise_id),
    {
        self.promises_resolved = self.promises_resolved + 1;
        self.promises.remove(&promise_id);
    }
}

impl Default for PromiseMetricsSummary {
    fn default() -> (r: PromiseMetricsSummary)
        ensures
            r.test_name@ == Seq::<char>::empty(),
            r.promises_initialized == 0,
            r.promises_resolved == 0,
            r.spec_promises() == Set::<i32>::empty(),
    {
        PromiseMetricsSummary::with_name(String::new())
    }
}

/// The promise summaries of all tests of a run, and which test is running.
pub struct PromiseMetricsSummaryTracker {
    current: usize,
    metrics: Vec<PromiseMetricsSummary>,
}

pub open spec fn sum_initialized(s: Seq<PromiseMetricsSummary>) -> nat
    decreases s.len(),
{
    if s.len() == 0 {
        0
    } else {
        sum_initialized(s.drop_last()) + s.last().promises_initialized as nat
    }
}

pub open spec fn sum_resolved(s: Seq<PromiseMetricsSummary>) -> nat
    decreases s.len(),
{
    if s.len() == 0 {
        0
    } else {
        sum_resolved(s.drop_last()) + s.last().promises_resolved as nat
    }
}

/// Index of the first summary whose test is named `name`, or `s.len()`.
pub open spec fn index_of_test(s: Seq<PromiseMetricsSummary>, name: Seq<char>) -> int
    decreases s.len(),
{
    if s.len() == 0 {
        0
    } else if s[0].test_name@ == name {
        0
    } else {
        1 + index_of_test(s.drop_first(), name)
    }
}

/// Index of the first summary that holds the promise `id`, or `s.len()`.
pub open spec fn index_of_promise(s: Seq<PromiseMetricsSummary>, id: i32) -> int
    decreases s.len(),
{
    if s.len() == 0 {
        0
    } else if s[0].spec_promises().contains(id) {
        0
    } else {
        1 + index_of_promise(s.drop_first(), id)
    }
}

proof fn lemma_index_of_test_step(s: Seq<PromiseMetricsSummary>, name: Seq<char>, i: int)
    requires
        0 <= i < s.len(),
        s[i].test_name@ != name,
    ensures
        index_of_test(s.subrange(i, s.len() as int), name) == 1 + index_of_test(
            s.subrange(i + 1, s.len() as int),
            name,
        ),
{
    assert(s.subrange(i, s.len() as int).drop_first() =~= s.subrange(i + 1, s.len() as int));
}

proof fn lemma_index_of_promise_step(s: Seq<PromiseMetricsSummary>, id: i32, i: int)
    requires
        0 <= i < s.len(),
        !s[i].spec_promises().contains(id),
    ensures
        index_of_promise(s.subrange(i, s.len() as int), id) == 1 + index_of_promise(
            s.subrange(i + 1, s.len() as int),
            id,
        ),
{
    assert(s.subrange(i, s.len() as int).drop_first() =~= s.subrange(i + 1, s.len() as int));
}

impl PromiseMetricsSummaryTracker {
    /// The current test is a summary of the list whenever the list is not empty.
    pub closed spec fn wf(&self) -> bool {
        self.metrics@.len() > 0 ==> self.current < self.metrics@.len()
    }

    pub closed spec fn spec_metrics(&self) -> Seq<PromiseMetricsSummary> {
        self.metrics@
    }

    pub closed spec fn spec_current(&self) -> int {
        self.current as int
    }

    pub fn new() -> (r: PromiseMetricsSummaryTracker)
        ensures
            r.wf(),
            r.spec_metrics().len() == 0,
    {
        PromiseMetricsSummaryTracker { current: 0, metrics: Vec::new() }
    }

    /// The summaries, one per test, in the order in which the tests were first named.
    pub fn per_test(&self) -> (r: &Vec<PromiseMetricsSummary>)
        ensures
            r@ == self.spec_metrics(),
    {
        &self.metrics
    }

    /// The promise counts of all tests together.
    pub fn aggregate(&self) -> (r: PromiseMetricsSummary)
        requires
            sum_initialized(self.spec_metrics()) <= u64::MAX,
            sum_resolved(self.spec_metrics()) <= u64::MAX,
        ensures
            r.promises_initialized == sum_initialized(self.spec_metrics()),
            r.promises_resolved == sum_resolved(self.spec_metrics()),
            r.test_name@ == Seq::<char>::empty(),
            r.spec_promises() == Set::<i32>::empty(),
    {
        let mut sum = PromiseMetricsSummary::default();
        let mut i: usize = 0;
        while i < self.metrics.len()
            invariant
                i <= self.metrics@.len(),
                sum_initialized(self.metrics@) <= u64::MAX,
                sum_resolved(self.metrics@) <= u64::MAX,
                sum.promises_initialized == sum_initialized(self.metrics@.subrange(0, i as int)),
                sum.promises_resolved == sum_resolved(self.metrics@.subrange(0, i as int)),
                sum.test_name@ == Seq::<char>::empty(),
                sum.spec_promises() == Set::<i32>::empty(),
            decreases self.metrics@.len() - i,
        {
            proof {
                let s = self.metrics@;
                assert(s.subrange(0, i + 1).drop_last() =~= s.subrange(0, i as int));
                lemma_sums_monotone(s, i + 1);
            }
            sum.promises_initialized = sum.promises_initialized
                + self.metrics[i].promises_initialized;
            sum.promises_resolved = sum.promises_resolved + self.metrics[i].promises_resolved;
            i = i + 1;
        }
        assert(self.metrics@.subrange(0, i as int) =~= self.metrics@);
        sum
    }

    /// The summary of the current test, or `None` before any test was named.
    pub fn metrics(&self) -> (r: Option<&PromiseMetricsSummary>)
        requires
            self.wf(),
        ensures
            self.spec_metrics().len() == 0 <==> r is None,
            r matches Some(m) ==> *m == self.spec_metrics()[self.spec_current()],
    {
        if self.metrics.len() == 0 {
            None
        } else {
            Some(&self.metrics[self.current])
        }
    }

    /// The summary of the current test, to update.
    pub fn metrics_mut(&mut self) -> (r: &mut PromiseMetricsSummary)
        requires
            old(self).wf(),
            old(self).spec_metrics().len() > 0,
        ensures
            *r == old(self).spec_metrics()[old(self).spec_current()],
            final(self).spec_metrics() == old(self).spec_metrics().update(
                old(self).spec_current(),
                *final(r),
            ),
            final(self).spec_current() == old(self).spec_current(),
            final(self).wf(),
    {
        let i = self.current;
        &mut self.metrics[i]
    }

    /// The summary of the first test that holds the promise `promise_id`, to update.
    pub fn metrics_mut_with_promise(&mut self, promise_id: i32) -> (r: Option<
        &mut PromiseMetricsSummary,
    >)
        requires
            old(self).wf(),
        ensures
            final(self).wf(),
            final(self).spec_current() == old(self).spec_current(),
            ({
                let before = old(self).spec_metrics();
                let i = index_of_promise(before, promise_id);
                match r {
                    Some(m) => {
                        &&& i < before.len()
                        &&& *m == before[i]
                        &&& final(self).spec_metrics() == before.update(i, *final(m))
                    },
                    None => i == before.len() && final(self).spec_metrics() == before,
                }
            }),
    {
        let mut i: usize = 0;
        assert(self.metrics@.subrange(0, self.metrics@.len() as int) =~= self.metrics@);
        while i < self.metrics.len()
            invariant
                self.metrics@ == old(self).metrics@,
                self.current == old(self).current,
                self.wf(),
                i <= self.metrics@.len(),
                index_of_promise(self.metrics@, promise_id) == i + index_of_promise(
                    self.metrics@.subrange(i as int, self.metrics@.len() as int),
                    promise_id,
                ),
            decreases self.metrics@.len() - i,
        {
            if self.metrics[i].contains(promise_id) {
                assert(self.metrics@.subrange(i as int, self.metrics@.len() as int)[0]
                    == self.metrics@[i as int]);
                return Some(&mut self.metrics[i]);
            }
            proof {
                lemma_index_of_promise_step(self.metrics@, promise_id, i as int);
            }
            i = i + 1;
        }
        None
    }

    /// Makes the test `name` the current one, adding a summary for it if it has none.
    pub fn track(&mut self, name: String)
        requires
            old(self).wf(),
        ensures
            final(self).wf(),
            ({
                let before = old(self).spec_metrics();
                let after = final(self).spec_metrics();
                let i = index_of_test(before, name@);
                &&& final(self).spec_current() == i
                &&& i < before.len() ==> after == before
                &&& i == before.len() ==> {
                    &&& after.len() == i + 1
                    &&& after.subrange(0, i) == before
                    &&& after[i].test_name@ == name@
                    &&& after[i].promises_initialized == 0
                    &&& after[i].promises_resolved == 0
                    &&& after[i].spec_promises() == Set::<i32>::empty()
                }
            }),
    {
        let mut i: usize = 0;
        assert(self.metrics@.subrange(0, self.metrics@.len() as int) =~= self.metrics@);
        while i < self.metrics.len()
            invariant
                self.metrics@ == old(self).metrics@,
                self.current == old(self).current,
                self.wf(),
                i <= self.metrics@.len(),
                index_of_test(self.metrics@, name@) == i + index_of_test(
                    self.metrics@.subrange(i as int, self.metrics@.len() as int),
                    name@,
                ),
            decreases self.metrics@.len() - i,
        {
            if self.metrics[i].test_name == name {
                assert(self.metrics@.subrange(i as int, self.metrics@.len() as int)[0]
                    == self.metrics@[i as int]);
                self.current = i;
                return;
            }
            proof {
                lemma_index_of_test_step(self.metrics@, name@, i as int);
            }
            i = i + 1;
        }
        proof {
            assert(self.metrics@.subrange(i as int, self.metrics@.len() as int).len() == 0);
        }
        let index = self.metrics.len();
        self.metrics.push(PromiseMetricsSummary::with_name(name));
        self.current = index;
        assert(self.metrics@.subrange(0, index as int) =~= old(self).metrics@);
        assert(self.metrics@[index as int].test_name@ == name@);
    }
}

/// The events of a promise's life that the tracker counts.
#[derive(Clone, Copy, Debug, PartialEq, Eq, Structural)]
pub enum PromiseEvent {
    Init,
    Resolve,
    Other,
}

impl PromiseMetricsSummaryTracker {
    /// Counts `event` against the current test: a created promise or a settled one; other
    /// events change nothing.
    pub fn record(&mut self, event: PromiseEvent)
        requires
            old(self).wf(),
            old(self).spec_metrics().len() > 0,
            event == PromiseEvent::Init ==> old(self).spec_metrics()[old(
                self,
            ).spec_current()].promises_initialized < u64::MAX,
            event == PromiseEvent::Resolve ==> old(self).spec_metrics()[old(
                self,
            ).spec_current()].promises_resolved < u64::MAX,
        ensures
            final(self).wf(),
            final(self).spec_current() == old(self).spec_current(),
            final(self).spec_metrics().len() == old(self).spec_metrics().len(),
            forall|j: int|
                0 <= j < old(self).spec_metrics().len() && j != old(self).spec_current() ==> #[trigger] final(self).spec_metrics()[j] == old(self).spec_metrics()[j],
            ({
                let before = old(self).spec_metrics()[old(self).spec_current()];
                let after = final(self).spec_metrics()[old(self).spec_current()];
                &&& after.test_name == before.test_name
                &&& after.promises == before.promises
                &&& after.promises_initialized == before.promises_initialized + (if event
                    == PromiseEvent::Init {
                    1int
                } else {
                    0int
                })
                &&& after.promises_resolved == before.promises_resolved + (if event
                    == PromiseEvent::Resolve {
                    1int
                } else {
                    0int
                })
            }),
    {
        let metrics = self.metrics_mut();
        match event {
            PromiseEvent::Init => {
                metrics.promises_initialized = metrics.promises_initialized + 1;
            },
            PromiseEvent::Resolve => {
                metrics.promises_resolved = metrics.promises_resolved + 1;
            },
            PromiseEvent::Other => {},
        }
    }

    /// The first test, in the order the tests were first named, that left promises pending.
    pub fn first_with_pending_promises(&self) -> (r: Option<usize>)
        ensures
            match r {
                Some(i) => {
                    &&& i < self.spec_metrics().len()
                    &&& self.spec_metrics()[i as int].promises_initialized > self.spec_metrics()[i as int].promises_resolved
                    &&& forall|j: int|
                        0 <= j < i ==> #[trigger] self.spec_metrics()[j].promises_initialized
                            <= self.spec_metrics()[j].promises_resolved
                },
                None => forall|j: int|
                    0 <= j < self.spec_metrics().len() ==> #[trigger] self.spec_metrics()[j].promises_initialized
                        <= self.spec_metrics()[j].promises_resolved,
            },
    {
        let mut i: usize = 0;
        while i < self.metrics.len()
            invariant
                i <= self.metrics@.len(),
                forall|j: int|
                    0 <= j < i ==> #[trigger] self.metrics@[j].promises_initialized
                        <= self.metrics@[j].promises_resolved,
            decreases self.metrics@.len() - i,
        {
            if self.metrics[i].has_pending_promises() {
                return Some(i);
            }
            i = i + 1;
        }
        None
    }
}

impl Default for PromiseMetricsSummaryTracker {
    fn default() -> (r: PromiseMetricsSummaryTracker)
        ensures
            r.wf(),
            r.spec_metrics().len() == 0,
    {
        PromiseMetricsSummaryTracker::new()
    }
}

proof fn lemma_sums_monotone(s: Seq<PromiseMetricsSummary>, i: int)
    requires
        0 <= i <= s.len(),
    ensures
        sum_initialized(s.subrange(0, i)) <= sum_initialized(s),
        sum_resolved(s.subrange(0, i)) <= sum_resolved(s),
    decreases s.len() - i,
{
    if i < s.len() {
        lemma_sums_monotone(s, i + 1);
        assert(s.subrange(0, i + 1).drop_last() =~= s.subrange(0, i));
    } else {
        assert(s.subrange(0, i) =~= s);
    }
}

} // verus!
