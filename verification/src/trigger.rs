//! The one-shot guard behind an idempotent shutdown trigger.
//!
//! A shutdown trigger may be invoked any number of times: by a termination
//! signal, by a second signal, by the server's own logic. Only the first
//! invocation may take effect. [`ShutdownTrigger`] keeps that count. It is
//! not shared state by itself: a holder that invokes it from several
//! execution units puts it behind a lock.

use vstd::prelude::*;

verus! {

/// What one invocation does to a trigger that has, or has not, fired before:
/// the trigger has fired afterwards, and the invocation takes effect exactly
/// if it had not.
pub open spec fn invoke(fired: bool) -> (bool, bool) {
    (true, !fired)
}

/// The number of invocations that take effect among `invocations` in a row,
/// on a trigger that has, or has not, fired before.
pub open spec fn effects(fired: bool, invocations: nat) -> nat
    decreases invocations,
{
    if invocations == 0 {
        0
    } else {
        let (after, effect) = invoke(fired);
        effects(after, (invocations - 1) as nat) + if effect {
            1nat
        } else {
            0nat
        }
    }
}

/// A guard that lets exactly one invocation through.
#[derive(Debug)]
pub struct ShutdownTrigger {
    fired: bool,
}

impl ShutdownTrigger {
    /// Whether the trigger has been invoked.
    pub closed spec fn fired(&self) -> bool {
        self.fired
    }

    /// A trigger that has not been invoked.
    pub fn new() -> (trigger: ShutdownTrigger)
        ensures
            !trigger.fired(),
    {
        ShutdownTrigger { fired: false }
    }

    /// Invokes the trigger. Returns `true` if this invocation is the first,
    /// the one on which the holder requests the shutdown; `false` if the
    /// trigger had fired already, in which case nothing is to be done.
    pub fn fire(&mut self) -> (effect: bool)
        ensures
            (final(self).fired(), effect) == invoke(old(self).fired()),
    {
        let effect = !self.fired;
        self.fired = true;
        effect
    }

    /// Whether the trigger has been invoked.
    pub fn has_fired(&self) -> (fired: bool)
        ensures
            fired == self.fired(),
    {
        self.fired
    }
}

impl Default for ShutdownTrigger {
    /// A trigger that has not been invoked.
    fn default() -> (trigger: ShutdownTrigger)
        ensures
            !trigger.fired(),
    {
        ShutdownTrigger::new()
    }
}

/// A trigger that has fired lets nothing more through.
pub proof fn lemma_spent_trigger_is_inert(invocations: nat)
    ensures
        effects(true, invocations) == 0,
    decreases invocations,
{
    if invocations > 0 {
        lemma_spent_trigger_is_inert((invocations - 1) as nat);
    }
}

/// Invoking a fresh trigger once or more takes effect exactly once.
pub proof fn theorem_trigger_is_idempotent(invocations: nat)
    requires
        invocations >= 1,
    ensures
        effects(false, invocations) == 1,
{
    lemma_spent_trigger_is_inert((invocations - 1) as nat);
}

} // verus!
