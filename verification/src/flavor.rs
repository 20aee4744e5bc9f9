//! Scheduler flavor of a registered runtime.
use vstd::prelude::*;

verus! {

/// Which Tokio scheduler a runtime uses, as written to the trace.
#[derive(Debug, Clone, Copy, PartialEq, Eq, Structural)]
pub enum RuntimeFlavor {
    CurrentThread,
    MultiThread,
}

impl RuntimeFlavor {
    /// The flavor that a runtime with `worker_count` workers counts as.
    pub open spec fn detected(worker_count: nat) -> RuntimeFlavor {
        if worker_count == 1 {
            RuntimeFlavor::CurrentThread
        } else {
            RuntimeFlavor::MultiThread
        }
    }

    /// The flavor's name in the trace.
    pub open spec fn label(self) -> Seq<char> {
        match self {
            RuntimeFlavor::CurrentThread => "current_thread"@,
            RuntimeFlavor::MultiThread => "multi_thread"@,
        }
    }

    /// Detect the flavor from the number of workers: one worker counts as
    /// `current_thread`, any other number as `multi_thread`.
    pub fn from_worker_count(worker_count: usize) -> (flavor: RuntimeFlavor)
        ensures
            flavor == RuntimeFlavor::detected(worker_count as nat),
    {
        if worker_count == 1 {
            RuntimeFlavor::CurrentThread
        } else {
            RuntimeFlavor::MultiThread
        }
    }

    /// `"current_thread"` or `"multi_thread"`.
    pub fn as_str(self) -> (res: &'static str)
        ensures
            res@ == self.label(),
    {
        match self {
            RuntimeFlavor::CurrentThread => "current_thread",
            RuntimeFlavor::MultiThread => "multi_thread",
        }
    }
}

/// The label tells the two flavors apart.
pub proof fn law_labels_are_distinct(a: RuntimeFlavor, b: RuntimeFlavor)
    requires
        a != b,
    ensures
        a.label() != b.label(),
{
    reveal_strlit("current_thread");
    reveal_strlit("multi_thread");
    assert(RuntimeFlavor::CurrentThread.label().len() != RuntimeFlavor::MultiThread.label().len());
}

/// A runtime counts as `current_thread` if it has one worker, and as
/// `multi_thread` with any other number of workers.
pub proof fn law_one_worker_counts_as_current_thread(worker_count: nat)
    ensures
        RuntimeFlavor::detected(worker_count) == RuntimeFlavor::CurrentThread <==> worker_count
            == 1,
        RuntimeFlavor::detected(worker_count) == RuntimeFlavor::MultiThread <==> worker_count != 1,
{
}

/// The label is `current_thread` for the one flavor and `multi_thread` for the
/// other.
pub proof fn law_labels_are_tokios_names(flavor: RuntimeFlavor)
    ensures
        flavor == RuntimeFlavor::CurrentThread <==> flavor.label() == "current_thread"@,
        flavor == RuntimeFlavor::MultiThread <==> flavor.label() == "multi_thread"@,
{
    law_labels_are_distinct(RuntimeFlavor::CurrentThread, RuntimeFlavor::MultiThread);
}

} // verus!
