//! Load tests: the image that each push task sends, how the result of each
//! task is classified, and how the outcomes of a run are gathered and
//! summarised.
use vstd::prelude::*;
use vstd::string::StringExecFns;

use crate::artifact::{gen_rand_layers, is_synthetic_layer, MEGABYTE};
use crate::image::{default_config, gen_image, is_assembled, Image, ImageError};

verus! {

/// The size of the content of each layer of a pushed image.
pub const PUSH_LAYER_SIZE: usize = 10 * MEGABYTE;

/// The number of layers of a pushed image.
pub const PUSH_LAYER_COUNT: usize = 1;

/// The image that one push task sends: `layer_count` synthetic layers of
/// `layer_size` bytes of content each, with the default config.
pub fn gen_push_image(layer_size: usize, layer_count: usize) -> (r: Result<Image, ImageError>)
    ensures
        r is Ok,
        is_assembled(r->Ok_0),
        default_config(r->Ok_0.config),
        r->Ok_0.layers.len() == layer_count,
        forall|i: int|
            0 <= i < layer_count ==> is_synthetic_layer(
                #[trigger] r->Ok_0.layers[i],
                layer_size as nat,
            ),
{
    let layers = gen_rand_layers(layer_size, layer_count);
    gen_image(layers)
}

/// Why one task of a load test failed.
#[derive(Clone, Debug)]
pub enum LoadTestError {
    /// The registry client returned an error; its message is held.
    OciDistributionError(String),
    /// The task did not run to completion; the reason is held.
    JoinError(String),
}

/// The text that reports a failed task: its kind, then its message.
pub open spec fn error_message(e: LoadTestError) -> Seq<char> {
    match e {
        LoadTestError::OciDistributionError(m) => "OciDistributionError: "@ + m@,
        LoadTestError::JoinError(m) => "JoinError: "@ + m@,
    }
}

impl LoadTestError {
    /// True where the registry client failed, as opposed to the task.
    pub fn is_protocol(&self) -> (r: bool)
        ensures
            r == (self is OciDistributionError),
    {
        match self {
            LoadTestError::OciDistributionError(_) => true,
            LoadTestError::JoinError(_) => false,
        }
    }

    /// The text that reports this failure.
    pub fn message(&self) -> (r: String)
        ensures
            r@ == error_message(*self),
    {
        match self {
            LoadTestError::OciDistributionError(m) => {
                let mut out = "OciDistributionError: ".to_string();
                out.append(m.as_str());
                out
            },
            LoadTestError::JoinError(m) => {
                let mut out = "JoinError: ".to_string();
                out.append(m.as_str());
                out
            },
        }
    }
}

/// How one task ended: `Err` holds why it did not run to completion;
/// `Ok` holds what the registry client returned, its error as a message.
pub type TaskResult<T> = Result<Result<T, String>, String>;

/// `c` is the outcome of a task that ended as `r`.
pub open spec fn classified<T>(r: TaskResult<T>, c: Result<T, LoadTestError>) -> bool {
    match r {
        Err(j) => c matches Err(LoadTestError::JoinError(m)) && m@ == j@,
        Ok(Err(e)) => c matches Err(LoadTestError::OciDistributionError(m)) && m@ == e@,
        Ok(Ok(v)) => c == Ok::<T, LoadTestError>(v),
    }
}

/// The outcome of a task that ended as `r`: its value where the registry
/// client succeeded, a protocol failure where the client failed, and an
/// execution failure where the task did not run to completion.
pub fn classify<T>(r: TaskResult<T>) -> (c: Result<T, LoadTestError>)
    ensures
        classified(r, c),
{
    match r {
        Err(j) => Err(LoadTestError::JoinError(j)),
        Ok(Err(e)) => Err(LoadTestError::OciDistributionError(e)),
        Ok(Ok(v)) => Ok(v),
    }
}

/// The outcomes of a load test of a fixed number of tasks, gathered as the
/// tasks end.
pub struct LoadTestRun<T> {
    expected: usize,
    outcomes: Vec<Result<T, LoadTestError>>,
}

impl<T> LoadTestRun<T> {
    /// The number of tasks of this run.
    pub closed spec fn expected(&self) -> nat {
        self.expected as nat
    }

    /// The outcomes gathered so far, in the order in which they came.
    pub closed spec fn outcomes(&self) -> Seq<Result<T, LoadTestError>> {
        self.outcomes@
    }

    /// No more outcomes than tasks.
    pub closed spec fn wf(&self) -> bool {
        self.outcomes@.len() <= self.expected
    }

    /// A run of `count` tasks, none of which has ended yet.
    pub fn new(count: usize) -> (r: Self)
        ensures
            r.wf(),
            r.expected() == count,
            r.outcomes().len() == 0,
    {
        LoadTestRun { expected: count, outcomes: Vec::new() }
    }

    /// True once every task has ended.
    pub fn is_complete(&self) -> (r: bool)
        requires
            self.wf(),
        ensures
            r == (self.outcomes().len() == self.expected()),
    {
        self.outcomes.len() == self.expected
    }

    /// Records that one more task ended as `r`.
    pub fn record(&mut self, r: TaskResult<T>)
        requires
            old(self).wf(),
            old(self).outcomes().len() < old(self).expected(),
        ensures
            final(self).wf(),
            final(self).expected() == old(self).expected(),
            final(self).outcomes().len() == old(self).outcomes().len() + 1,
            final(self).outcomes().drop_last() == old(self).outcomes(),
            classified(r, final(self).outcomes().last()),
    {
        let c = classify(r);
        self.outcomes.push(c);
        assert(self.outcomes@.drop_last() =~= old(self).outcomes@);
    }

    /// The outcomes of a complete run: exactly one per task.
    pub fn finish(self) -> (r: Vec<Result<T, LoadTestError>>)
        requires
            self.wf(),
            self.outcomes().len() == self.expected(),
        ensures
            r@ == self.outcomes(),
            r.len() == self.expected(),
    {
        self.outcomes
    }
}

/// Gathers the outcomes of a run whose tasks ended as `results`, one per
/// task, in order.
pub fn collect_outcomes<T>(results: Vec<TaskResult<T>>) -> (r: Vec<Result<T, LoadTestError>>)
    ensures
        r.len() == results.len(),
        forall|i: int| 0 <= i < results.len() ==> classified(results[i], #[trigger] r[i]),
{
    let ghost rs = results@;
    let mut run: LoadTestRun<T> = LoadTestRun::new(results.len());
    for x in it: results.into_iter()
        invariant
            it.seq() == rs,
            run.wf(),
            run.expected() == rs.len(),
            run.outcomes().len() == it.index(),
            forall|k: int| 0 <= k < it.index() ==> classified(rs[k], #[trigger] run.outcomes()[k]),
    {
        let ghost before = run.outcomes();
        run.record(x);
        assert forall|k: int| 0 <= k < it.index() + 1 implies classified(
            rs[k],
            #[trigger] run.outcomes()[k],
        ) by {
            if k < it.index() {
                assert(run.outcomes()[k] == before[k]);
            }
        }
    }
    run.finish()
}

/// The number of successes among `outcomes`.
pub open spec fn success_count<T>(outcomes: Seq<Result<T, LoadTestError>>) -> nat
    decreases outcomes.len(),
{
    if outcomes.len() == 0 {
        0
    } else {
        success_count(outcomes.drop_last()) + if outcomes.last() is Ok {
            1nat
        } else {
            0nat
        }
    }
}

/// The texts that report the failures among `outcomes`, in order.
pub open spec fn failure_messages<T>(outcomes: Seq<Result<T, LoadTestError>>) -> Seq<Seq<char>>
    decreases outcomes.len(),
{
    if outcomes.len() == 0 {
        Seq::empty()
    } else {
        let earlier = failure_messages(outcomes.drop_last());
        match outcomes.last() {
            Err(e) => earlier.push(error_message(e)),
            Ok(_) => earlier,
        }
    }
}

/// The characters of each of `v`.
pub open spec fn texts(v: Seq<String>) -> Seq<Seq<char>> {
    v.map_values(|m: String| m@)
}

/// The summary of a load test: how many tasks ran, how many succeeded, and
/// the report of each failure, in order.
#[derive(Clone, Debug)]
pub struct LoadTestReport {
    pub total: usize,
    pub success: usize,
    pub failures: Vec<String>,
}

/// Summarises the outcomes of a load test.
pub fn summarize<T>(outcomes: &Vec<Result<T, LoadTestError>>) -> (r: LoadTestReport)
    ensures
        r.total == outcomes.len(),
        r.success == success_count(outcomes@),
        texts(r.failures@) == failure_messages(outcomes@),
        r.success + r.failures.len() == r.total,
{
    let mut success: usize = 0;
    let mut failures: Vec<String> = Vec::new();
    let n = outcomes.len();
    for i in 0..n
        invariant
            n == outcomes.len(),
            success <= i,
            success + failures.len() == i,
            success == success_count(outcomes@.subrange(0, i as int)),
            texts(failures@) == failure_messages(outcomes@.subrange(0, i as int)),
    {
        let ghost done = outcomes@.subrange(0, i as int + 1);
        assert(done.drop_last() =~= outcomes@.subrange(0, i as int));
        match &outcomes[i] {
            Ok(_) => {
                success = success + 1;
            },
            Err(e) => {
                let ghost before = failures@;
                failures.push(e.message());
                assert(texts(failures@) =~= texts(before).push(error_message(*e)));
            },
        }
    }
    assert(outcomes@.subrange(0, n as int) =~= outcomes@);
    LoadTestReport { total: n, success, failures }
}

/// Where every task of a run ran to completion and the registry client
/// succeeded each time, every outcome is a success and none is a failure.
pub proof fn lemma_all_succeed<T>(
    results: Seq<TaskResult<T>>,
    outcomes: Seq<Result<T, LoadTestError>>,
)
    requires
        outcomes.len() == results.len(),
        forall|i: int| 0 <= i < results.len() ==> classified(results[i], #[trigger] outcomes[i]),
        forall|i: int| 0 <= i < results.len() ==> (#[trigger] results[i]) matches Ok(Ok(_)),
    ensures
        forall|i: int| 0 <= i < outcomes.len() ==> (#[trigger] outcomes[i]) is Ok,
        success_count(outcomes) == outcomes.len(),
        failure_messages(outcomes).len() == 0,
    decreases results.len(),
{
    assert forall|i: int| 0 <= i < outcomes.len() implies (#[trigger] outcomes[i]) is Ok by {
        assert(classified(results[i], outcomes[i]));
        assert(results[i] matches Ok(Ok(_)));
    }
    if results.len() > 0 {
        let n = results.len() - 1;
        lemma_all_succeed(results.drop_last(), outcomes.drop_last());
        assert(outcomes[n] is Ok);
    }
}

/// Where every task of a run ran to completion and the registry client
/// failed each time, every outcome is a protocol failure, never an
/// execution failure, and none is a success.
pub proof fn lemma_client_failures_are_protocol<T>(
    results: Seq<TaskResult<T>>,
    outcomes: Seq<Result<T, LoadTestError>>,
)
    requires
        outcomes.len() == results.len(),
        forall|i: int| 0 <= i < results.len() ==> classified(results[i], #[trigger] outcomes[i]),
        forall|i: int| 0 <= i < results.len() ==> (#[trigger] results[i]) matches Ok(Err(_)),
    ensures
        forall|i: int|
            0 <= i < outcomes.len() ==> (#[trigger] outcomes[i]) matches Err(
                LoadTestError::OciDistributionError(_),
            ),
        success_count(outcomes) == 0,
        failure_messages(outcomes).len() == outcomes.len(),
    decreases results.len(),
{
    assert forall|i: int| 0 <= i < outcomes.len() implies (#[trigger] outcomes[i]) matches Err(
        LoadTestError::OciDistributionError(_),
    ) by {
        assert(classified(results[i], outcomes[i]));
        assert(results[i] matches Ok(Err(_)));
    }
    if results.len() > 0 {
        let n = results.len() - 1;
        lemma_client_failures_are_protocol(results.drop_last(), outcomes.drop_last());
        assert(outcomes[n] is Err);
    }
}

} // verus!
