//! The runtimes of a group and their ranges of flat worker IDs.
use crate::event::{RawEvent, RuntimeDefModel};
use crate::flavor::RuntimeFlavor;
use crate::outside::{global_queue_depth, queue_depth_read};
use tokio::runtime::RuntimeMetrics;
use vstd::prelude::*;

verus! {

/// Flat worker IDs lie below this number, and their count fits in a byte.
pub const MAX_WORKERS: u8 = 255;

/// What a group retains of a registered runtime.
#[derive(Debug)]
pub struct RuntimeInfo {
    /// Index of the runtime in the group (0-based).
    runtime_index: u8,
    /// Human-readable name.
    name: String,
    /// First worker ID in the flat range.
    worker_base: u8,
    /// Number of workers.
    worker_count: u8,
    flavor: RuntimeFlavor,
    /// Whether callbacks know their worker without a lookup.
    constant_worker: bool,
    /// Metrics handle of the runtime.
    metrics: RuntimeMetrics,
}

/// A registered runtime, with numbers and texts as mathematical values.
pub struct RuntimeModel {
    pub runtime_index: nat,
    pub name: Seq<char>,
    pub worker_base: nat,
    pub worker_count: nat,
    pub flavor: RuntimeFlavor,
    pub constant_worker: bool,
    pub metrics: RuntimeMetrics,
}

impl View for RuntimeInfo {
    type V = RuntimeModel;

    closed spec fn view(&self) -> RuntimeModel {
        RuntimeModel {
            runtime_index: self.runtime_index as nat,
            name: self.name@,
            worker_base: self.worker_base as nat,
            worker_count: self.worker_count as nat,
            flavor: self.flavor,
            constant_worker: self.constant_worker,
            metrics: self.metrics,
        }
    }
}

/// One reading of a runtime's global queue.
#[derive(Debug, Clone, Copy, PartialEq, Eq, Structural)]
pub struct QueueSample {
    pub runtime_index: u8,
    pub global_queue_depth: usize,
}

impl RuntimeModel {
    /// One past the last flat worker ID of the runtime.
    pub open spec fn worker_end(self) -> nat {
        self.worker_base + self.worker_count
    }

    /// Whether `worker` is a flat ID of this runtime.
    pub open spec fn owns(self, worker: nat) -> bool {
        self.worker_base <= worker < self.worker_end()
    }

    /// The `RuntimeDef` of the runtime at a given time.
    pub open spec fn def(self, timestamp_nanos: u64) -> RuntimeDefModel {
        RuntimeDefModel {
            timestamp_nanos,
            runtime_index: self.runtime_index,
            name: self.name,
            worker_base: self.worker_base,
            worker_count: self.worker_count,
            flavor: self.flavor.label(),
        }
    }
}

/// One past the last flat worker ID in use.
pub open spec fn workers_end(runtimes: Seq<RuntimeModel>) -> nat {
    if runtimes.len() == 0 {
        0
    } else {
        runtimes.last().worker_end()
    }
}

/// Runtime `i` carries its position as index, its flavor agrees with its
/// number of workers, it has a worker, and just one if its worker is constant,
/// and its range begins where the range of the runtime before it ends.
pub open spec fn placed(runtimes: Seq<RuntimeModel>, i: int) -> bool {
    &&& runtimes[i].runtime_index == i
    &&& runtimes[i].worker_count >= 1
    &&& runtimes[i].constant_worker ==> runtimes[i].worker_count == 1
    &&& runtimes[i].flavor == RuntimeFlavor::detected(runtimes[i].worker_count)
    &&& runtimes[i].worker_base == (if i == 0 {
        0
    } else {
        runtimes[i - 1].worker_end()
    })
}

/// The runtimes are indexed in order, and their ranges of flat worker IDs
/// follow each other without gaps, from 0.
pub open spec fn laid_out(runtimes: Seq<RuntimeModel>) -> bool {
    forall|i: int| 0 <= i < runtimes.len() ==> #[trigger] placed(runtimes, i)
}

impl RuntimeInfo {
    /// Describe a runtime; its flavor follows from its number of workers.
    pub fn new(
        runtime_index: u8,
        name: &str,
        worker_base: u8,
        worker_count: u8,
        constant_worker: bool,
        metrics: RuntimeMetrics,
    ) -> (res: RuntimeInfo)
        ensures
            res@ == (RuntimeModel {
                runtime_index: runtime_index as nat,
                name: name@,
                worker_base: worker_base as nat,
                worker_count: worker_count as nat,
                flavor: RuntimeFlavor::detected(worker_count as nat),
                constant_worker,
                metrics,
            }),
    {
        RuntimeInfo {
            runtime_index,
            name: name.to_string(),
            worker_base,
            worker_count,
            flavor: RuntimeFlavor::from_worker_count(worker_count as usize),
            constant_worker,
            metrics,
        }
    }

    /// First worker ID in the flat range.
    pub fn worker_base(&self) -> (res: u8)
        ensures
            res == self@.worker_base,
    {
        self.worker_base
    }

    /// Whether callbacks know their worker without a lookup.
    pub fn constant_worker(&self) -> (res: bool)
        ensures
            res == self@.constant_worker,
    {
        self.constant_worker
    }

    /// The `RuntimeDef` event that describes this runtime.
    pub fn runtime_def(&self, timestamp_nanos: u64) -> (res: RawEvent)
        ensures
            res.runtime_def() == Some(self@.def(timestamp_nanos)),
    {
        RawEvent::RuntimeDef {
            timestamp_nanos,
            runtime_index: self.runtime_index,
            name: self.name.clone(),
            worker_base: self.worker_base,
            worker_count: self.worker_count,
            flavor: self.flavor.as_str().to_string(),
        }
    }

    /// A reading of this runtime's global queue.
    pub fn queue_sample(&self, global_queue_depth: usize) -> (res: QueueSample)
        ensures
            res.runtime_index == self@.runtime_index,
            res.global_queue_depth == global_queue_depth,
    {
        QueueSample { runtime_index: self.runtime_index, global_queue_depth }
    }
}

/// The registered runtimes, in order of registration.
#[derive(Debug)]
pub struct RuntimeSet {
    infos: Vec<RuntimeInfo>,
}

impl View for RuntimeSet {
    type V = Seq<RuntimeModel>;

    closed spec fn view(&self) -> Seq<RuntimeModel> {
        self.infos@.map_values(|info: RuntimeInfo| info@)
    }
}

impl RuntimeSet {
    /// No runtimes.
    pub fn new() -> (res: RuntimeSet)
        ensures
            res@ == Seq::<RuntimeModel>::empty(),
    {
        let res = RuntimeSet { infos: Vec::new() };
        assert(res@ =~= Seq::<RuntimeModel>::empty());
        res
    }

    /// The number of runtimes.
    pub fn len(&self) -> (res: usize)
        ensures
            res == self@.len(),
    {
        self.infos.len()
    }

    /// The runtime at position `i`.
    pub fn get(&self, i: usize) -> (res: Option<&RuntimeInfo>)
        ensures
            res is Some == (i < self@.len()),
            res matches Some(info) ==> info@ == self@[i as int],
    {
        if i < self.infos.len() {
            Some(&self.infos[i])
        } else {
            None
        }
    }

    /// Add a runtime at the end.
    pub(crate) fn push(&mut self, info: RuntimeInfo)
        ensures
            final(self)@ == old(self)@.push(info@),
    {
        self.infos.push(info);
        assert(self@ =~= old(self)@.push(info@));
    }

    /// The `RuntimeDef` events of all runtimes, in order of registration, with
    /// one timestamp.
    pub fn runtime_defs(&self, timestamp_nanos: u64) -> (res: Vec<RawEvent>)
        ensures
            res@.len() == self@.len(),
            forall|i: int|
                0 <= i < self@.len() ==> (#[trigger] res@[i]).runtime_def() == Some(
                    self@[i].def(timestamp_nanos),
                ),
    {
        let mut res: Vec<RawEvent> = Vec::new();
        let mut i: usize = 0;
        while i < self.infos.len()
            invariant
                i <= self.infos@.len(),
                self@.len() == self.infos@.len(),
                res@.len() == i,
                forall|j: int|
                    0 <= j < i ==> (#[trigger] res@[j]).runtime_def() == Some(
                        self@[j].def(timestamp_nanos),
                    ),
            decreases self.infos@.len() - i,
        {
            assert(self@[i as int] == self.infos@[i as int]@);
            res.push(self.infos[i].runtime_def(timestamp_nanos));
            i = i + 1;
        }
        res
    }

    /// Read the global queue of every runtime once, in order of registration.
    /// How deep the queues are is up to the runtimes, which work on meanwhile.
    pub fn sample_queues(&self) -> (res: Vec<QueueSample>)
        ensures
            res@.len() == self@.len(),
            forall|i: int|
                0 <= i < self@.len() ==> {
                    &&& (#[trigger] res@[i]).runtime_index == self@[i].runtime_index
                    &&& queue_depth_read(self@[i].metrics, res@[i].global_queue_depth)
                },
    {
        let mut res: Vec<QueueSample> = Vec::new();
        let mut i: usize = 0;
        while i < self.infos.len()
            invariant
                i <= self.infos@.len(),
                self@.len() == self.infos@.len(),
                res@.len() == i,
                forall|j: int|
                    0 <= j < i ==> {
                        &&& (#[trigger] res@[j]).runtime_index == self@[j].runtime_index
                        &&& queue_depth_read(self@[j].metrics, res@[j].global_queue_depth)
                    },
            decreases self.infos@.len() - i,
        {
            assert(self@[i as int] == self.infos@[i as int]@);
            let depth: usize = global_queue_depth(&self.infos[i].metrics);
            res.push(self.infos[i].queue_sample(depth));
            i = i + 1;
        }
        res
    }
}

/// Every runtime uses at least one worker ID, so there are no more runtimes
/// than worker IDs in use.
pub(crate) proof fn lemma_no_more_runtimes_than_workers(runtimes: Seq<RuntimeModel>)
    requires
        laid_out(runtimes),
    ensures
        runtimes.len() <= workers_end(runtimes),
    decreases runtimes.len(),
{
    if runtimes.len() > 0 {
        let shorter = runtimes.drop_last();
        assert forall|i: int| 0 <= i < shorter.len() implies #[trigger] placed(shorter, i) by {
            assert(placed(runtimes, i));
        }
        lemma_no_more_runtimes_than_workers(shorter);
        assert(placed(runtimes, runtimes.len() - 1));
    }
}

/// A runtime that starts where the last one ends keeps the layout.
pub(crate) proof fn lemma_layout_extends(runtimes: Seq<RuntimeModel>, next: RuntimeModel)
    requires
        laid_out(runtimes),
        next.runtime_index == runtimes.len(),
        next.worker_count >= 1,
        next.constant_worker ==> next.worker_count == 1,
        next.flavor == RuntimeFlavor::detected(next.worker_count),
        next.worker_base == workers_end(runtimes),
    ensures
        laid_out(runtimes.push(next)),
        workers_end(runtimes.push(next)) == next.worker_end(),
{
    let longer = runtimes.push(next);
    assert forall|i: int| 0 <= i < longer.len() implies #[trigger] placed(longer, i) by {
        if i < runtimes.len() {
            assert(placed(runtimes, i));
        }
    }
}

/// The range of an earlier runtime lies below the range of a later one.
pub proof fn law_worker_ranges_ascend(runtimes: Seq<RuntimeModel>, i: int, j: int)
    requires
        laid_out(runtimes),
        0 <= i < j < runtimes.len(),
    ensures
        runtimes[i].worker_end() <= runtimes[j].worker_base,
    decreases j - i,
{
    assert(placed(runtimes, j));
    assert(placed(runtimes, j - 1));
    if i < j - 1 {
        law_worker_ranges_ascend(runtimes, i, j - 1);
    }
}

/// No flat worker ID belongs to two runtimes.
pub proof fn law_worker_ranges_are_disjoint(
    runtimes: Seq<RuntimeModel>,
    i: int,
    j: int,
    worker: nat,
)
    requires
        laid_out(runtimes),
        0 <= i < runtimes.len(),
        0 <= j < runtimes.len(),
        runtimes[i].owns(worker),
        runtimes[j].owns(worker),
    ensures
        i == j,
{
    if i < j {
        law_worker_ranges_ascend(runtimes, i, j);
    } else if j < i {
        law_worker_ranges_ascend(runtimes, j, i);
    }
}

/// The flat worker IDs in use are exactly those from 0 up to the end of the
/// last range: each of them belongs to a runtime, and no other does.
pub proof fn law_worker_ranges_leave_no_gap(runtimes: Seq<RuntimeModel>, worker: nat)
    requires
        laid_out(runtimes),
    ensures
        worker < workers_end(runtimes) <==> exists|i: int|
            0 <= i < runtimes.len() && (#[trigger] runtimes[i]).owns(worker),
    decreases runtimes.len(),
{
    if runtimes.len() > 0 {
        let last = runtimes.len() - 1;
        let shorter = runtimes.drop_last();
        assert forall|i: int| 0 <= i < shorter.len() implies #[trigger] placed(shorter, i) by {
            assert(placed(runtimes, i));
        }
        law_worker_ranges_leave_no_gap(shorter, worker);
        assert(placed(runtimes, last));
        if worker < workers_end(shorter) {
            let i = choose|i: int|
                0 <= i < shorter.len() && (#[trigger] shorter[i]).owns(worker);
            assert(runtimes[i].owns(worker));
        } else if worker < workers_end(runtimes) {
            assert(runtimes[last].owns(worker));
        } else {
            assert forall|i: int| 0 <= i < runtimes.len() implies !(
            #[trigger] runtimes[i]).owns(worker) by {
                if i < last {
                    law_worker_ranges_ascend(runtimes, i, last);
                }
            }
        }
    }
}

/// Two emissions of a runtime's definition differ in their timestamps alone.
pub proof fn law_defs_repeat(runtime: RuntimeModel, first: u64, again: u64)
    ensures
        runtime.def(again) == (RuntimeDefModel { timestamp_nanos: again, ..runtime.def(first) }),
{
}

/// Definitions of the same group tell their runtimes apart, whenever they were
/// written: the ranges that two of them give hold a common worker ID only if
/// they describe the same runtime.
pub proof fn law_defs_tell_runtimes_apart(
    runtimes: Seq<RuntimeModel>,
    i: int,
    j: int,
    first: u64,
    second: u64,
    worker: nat,
)
    requires
        laid_out(runtimes),
        0 <= i < runtimes.len(),
        0 <= j < runtimes.len(),
        ({
            let a = runtimes[i].def(first);
            a.worker_base <= worker < a.worker_base + a.worker_count
        }),
        ({
            let b = runtimes[j].def(second);
            b.worker_base <= worker < b.worker_base + b.worker_count
        }),
    ensures
        i == j,
        runtimes[i].def(first).runtime_index == runtimes[j].def(second).runtime_index,
{
    law_worker_ranges_are_disjoint(runtimes, i, j, worker);
}

/// A runtime owns as many worker IDs as it has workers: those from its first ID
/// on. The IDs in use end where those of the last runtime do, and none is in use
/// without a runtime.
pub proof fn law_a_range_starts_at_its_base(
    runtimes: Seq<RuntimeModel>,
    runtime: RuntimeModel,
    worker: nat,
)
    ensures
        runtime.owns(worker) <==> runtime.worker_base <= worker && worker < runtime.worker_base
            + runtime.worker_count,
        runtime.worker_end() - runtime.worker_base == runtime.worker_count,
        workers_end(Seq::empty()) == 0,
        workers_end(runtimes.push(runtime)) == runtime.worker_base + runtime.worker_count,
{
}

/// Runtimes that are laid out carry their positions, each has a worker and the
/// flavor that goes with the number of its workers, and the first range starts at
/// 0, every other where the one before it ends.
pub proof fn law_laid_out_runtimes_are_in_order(runtimes: Seq<RuntimeModel>, i: int)
    requires
        laid_out(runtimes),
        0 <= i < runtimes.len(),
    ensures
        runtimes[i].runtime_index == i,
        runtimes[i].worker_count >= 1,
        runtimes[i].constant_worker ==> runtimes[i].worker_count == 1,
        runtimes[i].flavor == RuntimeFlavor::CurrentThread <==> runtimes[i].worker_count == 1,
        i == 0 ==> runtimes[i].worker_base == 0,
        i > 0 ==> runtimes[i].worker_base == runtimes[i - 1].worker_base + runtimes[i
            - 1].worker_count,
{
    assert(placed(runtimes, i));
}

/// No runtimes are laid out, and laid out runtimes stay so when one is added
/// that carries its position, has a worker and the flavor that goes with the
/// number of its workers, and starts where the last range ends.
pub proof fn law_runtimes_in_order_are_laid_out(runtimes: Seq<RuntimeModel>, next: RuntimeModel)
    requires
        laid_out(runtimes),
        next.runtime_index == runtimes.len(),
        next.worker_count >= 1,
        next.constant_worker ==> next.worker_count == 1,
        next.flavor == RuntimeFlavor::CurrentThread <==> next.worker_count == 1,
        runtimes.len() == 0 ==> next.worker_base == 0,
        runtimes.len() > 0 ==> next.worker_base == runtimes.last().worker_base
            + runtimes.last().worker_count,
    ensures
        laid_out(Seq::empty()),
        laid_out(runtimes.push(next)),
{
    lemma_layout_extends(runtimes, next);
}

/// A runtime's definition gives its index, its name and its range as they are,
/// the time it is written at, and `current_thread` or `multi_thread` by its
/// flavor.
pub proof fn law_defs_describe_the_runtime(runtime: RuntimeModel, timestamp_nanos: u64)
    ensures
        runtime.def(timestamp_nanos).timestamp_nanos == timestamp_nanos,
        runtime.def(timestamp_nanos).runtime_index == runtime.runtime_index,
        runtime.def(timestamp_nanos).name == runtime.name,
        runtime.def(timestamp_nanos).worker_base == runtime.worker_base,
        runtime.def(timestamp_nanos).worker_count == runtime.worker_count,
        runtime.flavor == RuntimeFlavor::CurrentThread ==> runtime.def(timestamp_nanos).flavor
            == "current_thread"@,
        runtime.flavor == RuntimeFlavor::MultiThread ==> runtime.def(timestamp_nanos).flavor
            == "multi_thread"@,
{
}

/// One definition is written for each runtime, in order, and its fields are the
/// runtime's index, name and range, the time it is written at, and the name of
/// its flavor.
pub proof fn law_every_runtime_is_described(
    runtimes: RuntimeSet,
    timestamp_nanos: u64,
    events: Vec<RawEvent>,
    i: int,
)
    requires
        call_ensures(RuntimeSet::runtime_defs, (&runtimes, timestamp_nanos), events),
        0 <= i < events@.len(),
    ensures
        events@.len() == runtimes@.len(),
        events@[i] matches RawEvent::RuntimeDef {
            timestamp_nanos: written_at,
            runtime_index,
            name,
            worker_base,
            worker_count,
            flavor,
        } && {
            &&& written_at == timestamp_nanos
            &&& runtime_index == runtimes@[i].runtime_index
            &&& name@ == runtimes@[i].name
            &&& worker_base == runtimes@[i].worker_base
            &&& worker_count == runtimes@[i].worker_count
            &&& flavor@ == (if runtimes@[i].flavor == RuntimeFlavor::CurrentThread {
                "current_thread"@
            } else {
                "multi_thread"@
            })
        },
{
    assert(events@[i].runtime_def() == Some(runtimes@[i].def(timestamp_nanos)));
}

/// What a runtime is registered with is what its definition says: the index, the
/// name, the first worker ID and the number of workers come out as they went in,
/// with the flavor that goes with the number of workers.
pub proof fn law_a_definition_repeats_the_registration(
    runtime_index: u8,
    name: &str,
    worker_base: u8,
    worker_count: u8,
    constant_worker: bool,
    metrics: RuntimeMetrics,
    info: RuntimeInfo,
    timestamp_nanos: u64,
    event: RawEvent,
)
    requires
        call_ensures(
            RuntimeInfo::new,
            (runtime_index, name, worker_base, worker_count, constant_worker, metrics),
            info,
        ),
        call_ensures(RuntimeInfo::runtime_def, (&info, timestamp_nanos), event),
    ensures
        event matches RawEvent::RuntimeDef {
            timestamp_nanos: written_at,
            runtime_index: index,
            name: text,
            worker_base: base,
            worker_count: count,
            flavor,
        } && {
            &&& written_at == timestamp_nanos
            &&& index == runtime_index
            &&& text@ == name@
            &&& base == worker_base
            &&& count == worker_count
            &&& flavor@ == (if worker_count == 1 {
                "current_thread"@
            } else {
                "multi_thread"@
            })
        },
{
}

} // verus!
