//! A batch of `current_thread` runtimes, registered one after the other.
//!
//! The runtimes of a batch are built one at a time. What building one came to is
//! registered before the next is built, and the first runtime that cannot be
//! registered ends the batch.
use crate::event::WorkerId;
use crate::group::{
    law_batch_takes_consecutive_workers, law_current_thread_runtimes_take_one_id,
    law_registration_keeps_earlier_runtimes, GroupModel, RegisterError, RegistrationModel,
    TracedRuntimeGroup,
};
use crate::names::{batch_name, batch_runtime_name, decimal};
use crate::outside::{runtime_metrics_of, worker_count_of};
use crate::runtimes::law_worker_ranges_leave_no_gap;
use tokio::runtime::{Runtime, RuntimeMetrics};
use vstd::prelude::*;

verus! {

/// A batch that is being registered.
#[derive(Debug)]
pub struct RuntimeBatch {
    name: String,
    runtimes: Vec<Runtime>,
    error: Option<RegisterError>,
}

/// A batch: its name, the runtimes registered so far, and the error that ended
/// it, if one has.
pub struct BatchModel {
    pub name: Seq<char>,
    pub runtimes: Seq<Runtime>,
    pub error: Option<RegisterError>,
}

impl View for RuntimeBatch {
    type V = BatchModel;

    closed spec fn view(&self) -> BatchModel {
        BatchModel { name: self.name@, runtimes: self.runtimes@, error: self.error }
    }
}

impl BatchModel {
    /// A batch with no runtimes yet.
    pub open spec fn begun(name: Seq<char>) -> BatchModel {
        BatchModel { name, runtimes: Seq::empty(), error: None }
    }

    /// The batch and the group after the next runtime, if building it gave
    /// `built`.
    pub open spec fn step<W, C, E, U>(
        self,
        group: GroupModel<W, C, E, U>,
        built: Result<Runtime, std::io::Error>,
    ) -> (BatchModel, GroupModel<W, C, E, U>) {
        let name = batch_name(self.name, self.runtimes.len());
        let (res, after) = group.current_thread_outcome(name, built);
        match res {
            Ok(runtime) => (BatchModel { runtimes: self.runtimes.push(runtime), ..self }, after),
            Err(error) => (BatchModel { error: Some(error), ..self }, after),
        }
    }

    /// The batch and the group after a number of runtimes, if building them one
    /// by one gives `built`. What follows the end of the batch is not looked at.
    pub open spec fn run<W, C, E, U>(
        self,
        group: GroupModel<W, C, E, U>,
        built: Seq<Result<Runtime, std::io::Error>>,
    ) -> (BatchModel, GroupModel<W, C, E, U>)
        decreases built.len(),
    {
        if built.len() == 0 {
            (self, group)
        } else {
            let (batch, after) = self.run(group, built.drop_last());
            if batch.error is Some {
                (batch, after)
            } else {
                batch.step(after, built.last())
            }
        }
    }
}

/// The metrics handles of a list of runtimes.
pub open spec fn metrics_of_all(runtimes: Seq<Runtime>) -> Seq<RuntimeMetrics> {
    runtimes.map_values(|runtime: Runtime| runtime_metrics_of(runtime))
}

/// Whether building gave a runtime with one worker.
pub open spec fn has_one_worker(built: Result<Runtime, std::io::Error>) -> bool {
    built matches Ok(runtime) && worker_count_of(runtime_metrics_of(runtime)) == 1
}

/// The runtimes that a list of successful builds gave.
pub open spec fn built_runtimes(built: Seq<Result<Runtime, std::io::Error>>) -> Seq<Runtime> {
    built.map_values(|one: Result<Runtime, std::io::Error>| one->Ok_0)
}

impl RuntimeBatch {
    /// A batch with no runtimes yet.
    pub(crate) fn new(name: &str) -> (res: RuntimeBatch)
        ensures
            res@ == BatchModel::begun(name@),
    {
        RuntimeBatch { name: name.to_string(), runtimes: Vec::new(), error: None }
    }

    /// The number of runtimes registered so far, which is the position of the
    /// next one.
    pub fn len(&self) -> (res: usize)
        ensures
            res == self@.runtimes.len(),
    {
        self.runtimes.len()
    }

    /// Whether a runtime could not be registered.
    pub fn has_ended(&self) -> (res: bool)
        ensures
            res == (self@.error is Some),
    {
        self.error.is_some()
    }

    /// Register the batch's next runtime, given what building it came to. If
    /// that fails the batch has ended; the runtimes before it stay registered.
    pub fn register<W, C, E, U>(
        &mut self,
        group: &mut TracedRuntimeGroup<W, C, E, U>,
        built: Result<Runtime, std::io::Error>,
    )
        requires
            old(group).wf(),
            old(self)@.error is None,
        ensures
            final(group).wf(),
            (final(self)@, final(group)@) == old(self)@.step(old(group)@, built),
    {
        let name = batch_runtime_name(self.name.as_str(), self.runtimes.len());
        match group.register_current_thread(name.as_str(), built) {
            Ok(runtime) => {
                self.runtimes.push(runtime);
            },
            Err(error) => {
                self.error = Some(error);
            },
        }
    }

    /// The runtimes of the batch, or the error that ended it.
    pub fn finish(self) -> (res: Result<Vec<Runtime>, RegisterError>)
        ensures
            match self@.error {
                Some(error) => res == Err::<Vec<Runtime>, RegisterError>(error),
                None => res matches Ok(runtimes) && runtimes@ == self@.runtimes,
            },
    {
        match self.error {
            Some(error) => Err(error),
            None => Ok(self.runtimes),
        }
    }
}

/// If every runtime of a batch is built with one worker, and their workers fit
/// into the range of flat worker IDs, the whole batch is registered in order.
pub proof fn law_batch_registers_all<W, C, E, U>(
    group: GroupModel<W, C, E, U>,
    name: Seq<char>,
    built: Seq<Result<Runtime, std::io::Error>>,
)
    requires
        forall|i: int| 0 <= i < built.len() ==> has_one_worker(#[trigger] built[i]),
        group.has_room_for(built.len()),
    ensures
        BatchModel::begun(name).run(group, built) == (
            BatchModel { name, runtimes: built_runtimes(built), error: None },
            group.with_batch(name, metrics_of_all(built_runtimes(built))),
        ),
    decreases built.len(),
{
    let runtimes = built_runtimes(built);
    let metrics = metrics_of_all(runtimes);
    if built.len() == 0 {
        assert(runtimes =~= Seq::<Runtime>::empty());
        assert(metrics =~= Seq::<RuntimeMetrics>::empty());
    } else {
        let shorter = built.drop_last();
        law_batch_registers_all(group, name, shorter);
        law_batch_takes_consecutive_workers(group, name, metrics_of_all(built_runtimes(shorter)));
        assert(has_one_worker(built[built.len() - 1]));
        assert(built_runtimes(shorter).push(built.last()->Ok_0) =~= runtimes);
        assert(metrics.drop_last() =~= metrics_of_all(built_runtimes(shorter)));
    }
}

/// The members of a batch as single registrations of `current_thread` runtimes.
pub open spec fn as_registrations(
    name: Seq<char>,
    built: Seq<Result<Runtime, std::io::Error>>,
) -> Seq<RegistrationModel> {
    Seq::new(
        built.len(),
        |i: int|
            RegistrationModel {
                current_thread: true,
                name: batch_name(name, i as nat),
                built: built[i],
            },
    )
}

/// A batch that has not ended leaves the group as registering its runtimes one
/// by one does, each under its name in the batch.
pub proof fn law_batch_is_a_row_of_registrations<W, C, E, U>(
    group: GroupModel<W, C, E, U>,
    name: Seq<char>,
    built: Seq<Result<Runtime, std::io::Error>>,
)
    requires
        BatchModel::begun(name).run(group, built).0.error is None,
    ensures
        BatchModel::begun(name).run(group, built).0.name == name,
        BatchModel::begun(name).run(group, built).0.runtimes.len() == built.len(),
        BatchModel::begun(name).run(group, built).1 == group.after_all(
            as_registrations(name, built),
        ),
    decreases built.len(),
{
    if built.len() > 0 {
        let shorter = built.drop_last();
        law_batch_is_a_row_of_registrations(group, name, shorter);
        let registrations = as_registrations(name, built);
        assert(registrations.drop_last() =~= as_registrations(name, shorter));
    }
}

/// The first runtime of a batch that cannot be registered ends the batch with
/// its error. The runtimes before it stay registered; what would follow it plays
/// no part.
pub proof fn law_batch_ends_at_the_first_failure<W, C, E, U>(
    group: GroupModel<W, C, E, U>,
    name: Seq<char>,
    built: Seq<Result<Runtime, std::io::Error>>,
    k: int,
)
    requires
        0 <= k < built.len(),
        forall|i: int| 0 <= i < k ==> has_one_worker(#[trigger] built[i]),
        group.has_room_for(k as nat),
        !has_one_worker(built[k]) || !group.has_room_for((k + 1) as nat),
    ensures
        ({
            let before = built_runtimes(built.take(k));
            let at_failure = group.with_batch(name, metrics_of_all(before));
            let failure = at_failure.current_thread_outcome(batch_name(name, k as nat), built[k]).0;
            &&& failure is Err
            &&& BatchModel::begun(name).run(group, built) == (
                BatchModel { name, runtimes: before, error: Some(failure->Err_0) },
                at_failure,
            )
        }),
    decreases built.len(),
{
    let before = built_runtimes(built.take(k));
    let shorter = built.drop_last();
    if k == built.len() - 1 {
        assert(shorter =~= built.take(k));
        law_batch_registers_all(group, name, built.take(k));
        law_batch_takes_consecutive_workers(group, name, metrics_of_all(before));
    } else {
        assert(shorter.take(k) =~= built.take(k));
        law_batch_ends_at_the_first_failure(group, name, shorter, k);
    }
}

/// The callbacks planned for member `i` of a batch, once the members before it
/// are registered, attribute every event to the one worker of that member, and
/// are the member's callbacks from then on.
pub proof fn law_batch_members_report_their_own_worker<W, C, E, U>(
    group: GroupModel<W, C, E, U>,
    name: Seq<char>,
    metrics: Seq<RuntimeMetrics>,
    i: int,
    resolved: Option<usize>,
)
    requires
        group.wf(),
        group.has_room_for(metrics.len()),
        0 <= i < metrics.len(),
    ensures
        ({
            let before = group.with_batch(name, metrics.take(i));
            let after = group.with_batch(name, metrics);
            let plan = before.plan_at(before.next_worker_id, true);
            let member = group.runtimes.len() + i;
            let worker = (group.next_worker_id + i) as nat;
            &&& plan.worker(resolved) == WorkerId::Worker(worker as u64)
            &&& after.runtimes[member].owns(worker)
            &&& after.plan_of(member) == plan
            &&& forall|other: int|
                0 <= other < after.runtimes.len() && other != member ==> !(
                #[trigger] after.runtimes[other]).owns(worker)
        }),
{
    let before = group.with_batch(name, metrics.take(i));
    let after = group.with_batch(name, metrics);
    let n = group.runtimes.len() as int;
    let worker = (group.next_worker_id + i) as nat;
    law_batch_takes_consecutive_workers(group, name, metrics.take(i));
    law_batch_takes_consecutive_workers(group, name, metrics);
    assert(after.runtimes[n + i].worker_base == worker);
    assert forall|other: int|
        0 <= other < after.runtimes.len() && other != n + i implies !(
    #[trigger] after.runtimes[other]).owns(worker) by {
        if other < n {
            assert(after.runtimes[other] == group.runtimes[other]);
            law_worker_ranges_leave_no_gap(group.runtimes, worker);
        } else {
            assert(after.runtimes[n + (other - n)].worker_base == group.next_worker_id + (other
                - n));
        }
    }
}

/// The next runtime of a batch that is built with one worker, while an ID is
/// left, joins the batch at its end. The group takes it in under the batch's
/// name, a dash and its position in the batch, with the next worker ID.
pub proof fn law_the_next_member_joins_the_batch<W, C, E, U>(
    batch: BatchModel,
    group: GroupModel<W, C, E, U>,
    runtime: Runtime,
)
    requires
        worker_count_of(runtime_metrics_of(runtime)) == 1,
        group.next_worker_id < 255,
    ensures
        ({
            let joined = batch.step(group, Ok(runtime)).0;
            let after = batch.step(group, Ok(runtime)).1;
            let last = after.runtimes.last();
            &&& joined.name == batch.name
            &&& joined.runtimes.len() == batch.runtimes.len() + 1
            &&& joined.runtimes.drop_last() == batch.runtimes
            &&& joined.runtimes.last() == runtime
            &&& joined.error == batch.error
            &&& after.next_worker_id == group.next_worker_id + 1
            &&& after.runtimes.drop_last() == group.runtimes
            &&& after.runtimes.len() == group.runtimes.len() + 1
            &&& last.name == batch.name + seq!['-'] + decimal(batch.runtimes.len())
            &&& last.runtime_index == group.runtimes.len()
            &&& last.worker_base == group.next_worker_id
            &&& last.worker_count == 1
            &&& last.constant_worker
            &&& last.metrics == runtime_metrics_of(runtime)
            &&& after.settings == group.settings
            &&& after.writer == group.writer
            &&& after.recording == group.recording
        }),
{
    let name = batch_name(batch.name, batch.runtimes.len());
    law_current_thread_runtimes_take_one_id(group, name, runtime);
    law_registration_keeps_earlier_runtimes(group, name, Ok(runtime));
    assert(batch.step(group, Ok(runtime)).0.runtimes.drop_last() =~= batch.runtimes);
    assert(name =~= batch.name + seq!['-'] + decimal(batch.runtimes.len()));
}

/// A runtime of a batch that could not be built ends the batch with that error,
/// and one with another number of workers than one, or for which no ID is left,
/// ends it with the number of its workers. The batch keeps its runtimes, and the
/// group stays as it was.
pub proof fn law_a_refused_member_ends_the_batch<W, C, E, U>(
    batch: BatchModel,
    group: GroupModel<W, C, E, U>,
    built: Result<Runtime, std::io::Error>,
)
    requires
        !has_one_worker(built) || group.next_worker_id >= 255,
    ensures
        batch.step(group, built).1 == group,
        batch.step(group, built).0.name == batch.name,
        batch.step(group, built).0.runtimes == batch.runtimes,
        built matches Err(error) ==> batch.step(group, built).0.error == Some(
            RegisterError::Build(error),
        ),
        built matches Ok(runtime) ==> ({
            let n = worker_count_of(runtime_metrics_of(runtime));
            &&& n != 1 ==> batch.step(group, built).0.error == Some(
                RegisterError::NotCurrentThread { workers: n },
            )
            &&& n == 1 ==> batch.step(group, built).0.error == Some(
                RegisterError::TooManyWorkers { workers: 1 },
            )
        }),
{
}

/// A batch that no member has ended gives all its runtimes in order. One that has
/// ended gives the error that ended it, and no runtimes.
pub proof fn law_a_batch_gives_its_runtimes_or_its_error(
    batch: RuntimeBatch,
    res: Result<Vec<Runtime>, RegisterError>,
)
    requires
        call_ensures(RuntimeBatch::finish, (batch,), res),
    ensures
        res is Ok <==> batch@.error is None,
        res matches Ok(runtimes) ==> runtimes@ == batch@.runtimes,
        res matches Err(error) ==> batch@.error == Some(error),
{
}

} // verus!
