//! Agent cells.
//!
//! An agent is an independently executing producer/consumer of typed
//! messages. The broker owns one cell per agent: the cell records whether the
//! agent is running, the messages waiting for it, and the history of
//! everything it accepted. The execution model behind an enabled cell — a
//! cooperative task, an OS thread, or a child subprocess — is chosen outside
//! this crate and is invisible to the broker.

use vstd::prelude::*;

verus! {

/// One agent slot: either disabled, or enabled with an input queue.
///
/// `inbox` holds messages accepted but not yet taken by the agent's
/// execution; `history` accumulates every accepted message until it is
/// collected as the agent's log.
#[derive(Clone, Debug)]
pub struct AgentCell<T> {
    pub enabled: bool,
    pub inbox: Vec<T>,
    pub history: Vec<T>,
}

/// Relation between a cell before and after `enable`.
pub open spec fn enable_rel<T>(pre: AgentCell<T>, post: AgentCell<T>) -> bool {
    &&& post.enabled
    &&& post.inbox@ == pre.inbox@
    &&& post.history@ == pre.history@
}

/// Relation between a cell before and after `disable`: the agent is torn
/// down and its unconsumed inputs are dropped with it.
pub open spec fn disable_rel<T>(pre: AgentCell<T>, post: AgentCell<T>) -> bool {
    &&& !post.enabled
    &&& post.inbox@ == Seq::<T>::empty()
    &&& post.history@ == pre.history@
}

impl<T> AgentCell<T> {
    /// A disabled cell never holds undelivered inputs.
    pub open spec fn wf(self) -> bool {
        !self.enabled ==> self.inbox@.len() == 0
    }

    /// A freshly constructed, disabled cell.
    pub fn new() -> (r: Self)
        ensures
            r.wf(),
            !r.enabled,
            r.inbox@ == Seq::<T>::empty(),
            r.history@ == Seq::<T>::empty(),
    {
        AgentCell { enabled: false, inbox: Vec::new(), history: Vec::new() }
    }

    /// Whether the agent is currently running.
    pub fn is_enabled(&self) -> (r: bool)
        ensures
            r == self.enabled,
    {
        self.enabled
    }

    /// Starts the agent. Transitions are atomic per call: a cell is never
    /// observed half-enabled.
    pub fn enable(&mut self)
        requires
            !old(self).enabled,
        ensures
            enable_rel(*old(self), *final(self)),
            final(self).wf(),
    {
        self.enabled = true;
    }

    /// Starts the agent if it is not already running.
    pub fn try_enable(&mut self)
        ensures
            final(self).enabled,
            final(self).inbox@ == old(self).inbox@,
            final(self).history@ == old(self).history@,
    {
        self.enabled = true;
    }

    /// Tears the agent down, dropping whatever it had not consumed.
    pub fn disable(&mut self)
        ensures
            disable_rel(*old(self), *final(self)),
            final(self).wf(),
    {
        self.enabled = false;
        self.inbox.clear();
    }

    /// Delivers a control message that must not be dropped.
    pub fn send_now(&mut self, msg: T) where T: Copy
        requires
            old(self).enabled,
        ensures
            final(self).enabled,
            final(self).inbox@ == old(self).inbox@.push(msg),
            final(self).history@ == old(self).history@.push(msg),
    {
        self.history.push(msg);
        self.inbox.push(msg);
    }

    /// Takes every waiting input, in delivery order, leaving the inbox empty.
    /// The agent's execution calls this to fetch its work.
    pub fn drain(&mut self) -> (r: Vec<T>)
        ensures
            r@ == old(self).inbox@,
            final(self).enabled == old(self).enabled,
            final(self).inbox@ == Seq::<T>::empty(),
            final(self).history@ == old(self).history@,
    {
        let mut taken: Vec<T> = Vec::new();
        core::mem::swap(&mut taken, &mut self.inbox);
        taken
    }

    /// Collects and clears the accumulated message history: the agent's log.
    pub fn take_history(&mut self) -> (r: Vec<T>)
        ensures
            r@ == old(self).history@,
            final(self).enabled == old(self).enabled,
            final(self).inbox@ == old(self).inbox@,
            final(self).history@ == Seq::<T>::empty(),
    {
        let mut taken: Vec<T> = Vec::new();
        core::mem::swap(&mut taken, &mut self.history);
        taken
    }
}

/// Enabling and then disabling an agent returns the cell to a state equal to
/// the original on every observable field, the accumulated history excepted —
/// and the history too is unchanged here, since enabling delivers nothing by
/// itself.
pub proof fn lemma_enable_disable_roundtrip<T>(c0: AgentCell<T>, c1: AgentCell<T>, c2: AgentCell<T>)
    requires
        c0.wf(),
        !c0.enabled,
        enable_rel(c0, c1),
        disable_rel(c1, c2),
    ensures
        c2.enabled == c0.enabled,
        c2.inbox@ == c0.inbox@,
        c2.history@ == c0.history@,
{
    assert(c0.inbox@.len() == 0);
    assert(c2.inbox@ =~= c0.inbox@);
}

} // verus!
