//! Roles of the threads that belong to the runtimes of a group.
use std::collections::HashMap;
use vstd::prelude::*;

verus! {

/// What a thread does for its runtime.
#[derive(Debug, Clone, Copy, PartialEq, Eq, Structural)]
pub enum ThreadRole {
    /// A thread that has not turned out to be a worker.
    Blocking,
    /// A worker, by its flat ID.
    Worker(u64),
}

/// The roles of the live threads, by thread ID.
pub struct ThreadRoles {
    roles: HashMap<u32, ThreadRole>,
}

impl View for ThreadRoles {
    type V = Map<u32, ThreadRole>;

    closed spec fn view(&self) -> Map<u32, ThreadRole> {
        self.roles@
    }
}

impl ThreadRoles {
    /// No thread has started yet.
    pub fn new() -> (res: ThreadRoles)
        ensures
            res@ == Map::<u32, ThreadRole>::empty(),
    {
        ThreadRoles { roles: HashMap::new() }
    }

    /// A thread starts: until more is known of it, it is a blocking thread.
    pub fn thread_started(&mut self, tid: u32)
        ensures
            final(self)@ == old(self)@.insert(tid, ThreadRole::Blocking),
    {
        broadcast use vstd::std_specs::hash::group_hash_axioms;

        self.roles.insert(tid, ThreadRole::Blocking);
    }

    /// A thread turns out to be a worker.
    pub fn thread_resolved(&mut self, tid: u32, worker: u64)
        ensures
            final(self)@ == old(self)@.insert(tid, ThreadRole::Worker(worker)),
    {
        broadcast use vstd::std_specs::hash::group_hash_axioms;

        self.roles.insert(tid, ThreadRole::Worker(worker));
    }

    /// A thread stops: its role is forgotten.
    pub fn thread_stopped(&mut self, tid: u32)
        ensures
            final(self)@ == old(self)@.remove(tid),
    {
        broadcast use vstd::std_specs::hash::group_hash_axioms;

        self.roles.remove(&tid);
    }

    /// The role of a thread, if the thread is live.
    pub fn role(&self, tid: u32) -> (res: Option<ThreadRole>)
        ensures
            res == (if self@.contains_key(tid) {
                Some(self@[tid])
            } else {
                None
            }),
    {
        broadcast use vstd::std_specs::hash::group_hash_axioms;

        match self.roles.get(&tid) {
            Some(role) => Some(*role),
            None => None,
        }
    }
}

/// From its start on a thread is a blocking thread, and no other thread's role
/// changes. Whatever role it was given meanwhile, once it has stopped it has
/// none, and the other roles are as they were before it started.
pub proof fn law_stopped_thread_leaves_no_role(
    roles: Map<u32, ThreadRole>,
    tid: u32,
    meanwhile: ThreadRole,
)
    ensures
        ({
            let started = roles.insert(tid, ThreadRole::Blocking);
            let stopped = started.insert(tid, meanwhile).remove(tid);
            &&& started[tid] == ThreadRole::Blocking
            &&& started.remove(tid) == roles.remove(tid)
            &&& stopped == roles.remove(tid)
            &&& !stopped.contains_key(tid)
            &&& !roles.contains_key(tid) ==> stopped == roles
        }),
{
    let started = roles.insert(tid, ThreadRole::Blocking);
    let stopped = started.insert(tid, meanwhile).remove(tid);
    assert(started.remove(tid) =~= roles.remove(tid));
    assert(stopped =~= roles.remove(tid));
    if !roles.contains_key(tid) {
        assert(stopped =~= roles);
    }
}

} // verus!
