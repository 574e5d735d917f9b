//! The editor's command queue, backed by the `queues` crate.
//!
//! Commands chosen from the menu are not executed inside the key handler;
//! they are queued and drained one per event-loop tick, so the screen can
//! settle before a (possibly terminal) command runs. The queue's contents
//! are modelled as the sequence of queued commands, oldest first.

use crate::menu_bar::MenuCmd;
use queues::IsQueue;
use vstd::prelude::*;

verus! {

#[verifier::external_type_specification]
#[verifier::external_body]
#[verifier::reject_recursive_types(T)]
pub struct ExQueue<T: Clone>(queues::Queue<T>);

/// The commands held by the queue, oldest first.
pub uninterp spec fn cmd_queue_items(q: queues::Queue<MenuCmd>) -> Seq<MenuCmd>;

/// Relies on queues' `Queue::new`: creates an empty queue.
#[verifier::external_body]
pub(crate) fn cmd_queue_new() -> (q: queues::Queue<MenuCmd>)
    ensures
        cmd_queue_items(q) == Seq::<MenuCmd>::empty(),
{
    queues::Queue::new()
}

/// Relies on queues' `IsQueue::add` for `Queue`: appends the value at the
/// tail; for the unbounded queue it always returns `Ok(None)`, so the result
/// carries nothing and is dropped.
#[verifier::external_body]
pub(crate) fn cmd_queue_add(q: &mut queues::Queue<MenuCmd>, cmd: MenuCmd)
    ensures
        cmd_queue_items(*final(q)) == cmd_queue_items(*old(q)).push(cmd),
{
    let _ = q.add(cmd);
}

/// Relies on queues' `IsQueue::size` for `Queue`: the number of queued
/// values.
#[verifier::external_body]
pub(crate) fn cmd_queue_size(q: &queues::Queue<MenuCmd>) -> (n: usize)
    ensures
        n == cmd_queue_items(*q).len(),
{
    q.size()
}

/// Relies on queues' `IsQueue::remove` for `Queue`: takes the oldest value
/// out, or reports that the queue is empty; the crate's error value is
/// mapped to `None`.
#[verifier::external_body]
pub(crate) fn cmd_queue_remove(q: &mut queues::Queue<MenuCmd>) -> (r: Option<MenuCmd>)
    ensures
        cmd_queue_items(*old(q)).len() == 0 ==> r is None && cmd_queue_items(*final(q))
            == cmd_queue_items(*old(q)),
        cmd_queue_items(*old(q)).len() > 0 ==> r == Some(cmd_queue_items(*old(q))[0])
            && cmd_queue_items(*final(q)) == cmd_queue_items(*old(q)).drop_first(),
{
    match q.remove() {
        Ok(cmd) => Some(cmd),
        Err(_) => None,
    }
}

} // verus!
