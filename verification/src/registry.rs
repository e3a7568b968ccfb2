//! The handle registry behind the native user-data slot, and message
//! routing.
//!
//! The native side addresses a window only by its opaque handle; the shell
//! owns the matching state object.  The native user-data slot holds a weak
//! reference so that native-side destruction never leaks the strong owner.
//! This module models that side table explicitly: each registered handle
//! maps to a flag saying whether the weak reference still upgrades to a
//! strong one.  The router consults the table for every message, falls back
//! to default native handling for unknown or dead handles, and clears a
//! handle's entry exactly once, when its final-destroy message is routed.

use vstd::prelude::*;
use std::collections::HashMap;

verus! {

broadcast use vstd::std_specs::hash::group_hash_axioms;

/// The native "about to create" message: the one that runs the creation
/// protocol instead of a table lookup.
pub const WM_NCCREATE: u32 = 0x0081;

/// The native final-destroy message: the last message a window receives;
/// routing it releases the handle's table entry.
pub const WM_NCDESTROY: u32 = 0x0082;

/// What the router decides for one message.
#[derive(Clone, Copy, Debug, PartialEq, Eq, Structural)]
pub enum RouteOutcome {
    /// Run the creation protocol, then let native construction continue.
    RunCreation,
    /// A live window owns this handle: dispatch to its typed handlers.
    Dispatch,
    /// No live window owns this handle: default native handling only.
    DefaultHandling,
}

/// The side table mapping live native handles to whether their weak
/// reference still upgrades.
pub struct MessageRouter {
    slots: HashMap<u64, bool>,
}

impl View for MessageRouter {
    type V = Map<u64, bool>;

    closed spec fn view(&self) -> Map<u64, bool> {
        self.slots@
    }
}

/// The routing decision and the table it leaves behind, as a value: the
/// creation message routes to the protocol and touches nothing; an
/// unregistered handle gets default handling; a registered handle is
/// dispatched while its weak reference upgrades and defaulted after; and
/// the final-destroy message additionally removes the entry.
pub open spec fn spec_route(slots: Map<u64, bool>, hwnd: u64, msg: u32) -> (Map<u64, bool>,
    RouteOutcome) {
    if msg == WM_NCCREATE {
        (slots, RouteOutcome::RunCreation)
    } else if !slots.contains_key(hwnd) {
        (slots, RouteOutcome::DefaultHandling)
    } else {
        (
            if msg == WM_NCDESTROY {
                slots.remove(hwnd)
            } else {
                slots
            },
            if slots[hwnd] {
                RouteOutcome::Dispatch
            } else {
                RouteOutcome::DefaultHandling
            },
        )
    }
}

impl MessageRouter {
    /// An empty table: no handle is registered.
    pub fn new() -> (router: MessageRouter)
        ensures
            router@ == Map::<u64, bool>::empty(),
    {
        MessageRouter { slots: HashMap::new() }
    }

    /// Register a freshly created window under its handle; the weak
    /// reference starts out upgradable.  Runs during the creation protocol,
    /// before the native creation call returns, and exactly once per
    /// handle.
    pub fn register(&mut self, hwnd: u64)
        requires
            !old(self)@.contains_key(hwnd),
        ensures
            final(self)@ == old(self)@.insert(hwnd, true),
    {
        self.slots.insert(hwnd, true);
    }

    /// Record that the strong owner of `hwnd` dropped: the weak reference
    /// in the slot no longer upgrades, but the entry itself stays until the
    /// final-destroy message releases it.
    pub fn release_strong(&mut self, hwnd: u64)
        ensures
            old(self)@.contains_key(hwnd) ==> final(self)@ == old(self)@.insert(hwnd, false),
            !old(self)@.contains_key(hwnd) ==> final(self)@ == old(self)@,
    {
        if self.slots.contains_key(&hwnd) {
            self.slots.insert(hwnd, false);
        }
    }

    /// Route one native message for `hwnd`.
    pub fn route(&mut self, hwnd: u64, msg: u32) -> (outcome: RouteOutcome)
        ensures
            final(self)@ == spec_route(old(self)@, hwnd, msg).0,
            outcome == spec_route(old(self)@, hwnd, msg).1,
    {
        if msg == WM_NCCREATE {
            return RouteOutcome::RunCreation;
        }
        let outcome = match self.slots.get(&hwnd) {
            None => {
                return RouteOutcome::DefaultHandling;
            },
            Some(upgradable) => {
                if *upgradable {
                    RouteOutcome::Dispatch
                } else {
                    RouteOutcome::DefaultHandling
                }
            },
        };
        if msg == WM_NCDESTROY {
            self.slots.remove(&hwnd);
        }
        outcome
    }

    /// Whether a strong handle to the window behind `hwnd` can still be
    /// recovered: the handle is valid, registered, and its weak reference
    /// upgrades.
    pub fn try_get_window_inner(&self, hwnd: u64) -> (r: bool)
        ensures
            r == (hwnd != 0 && self@.contains_key(hwnd) && self@[hwnd]),
    {
        if hwnd == 0 {
            return false;
        }
        match self.slots.get(&hwnd) {
            Some(upgradable) => *upgradable,
            None => false,
        }
    }
}

/// Once a handle's final-destroy message has been routed, the handle is
/// absent from the table, and any later message for it (other than a new
/// creation) gets default native handling and leaves the table untouched:
/// nothing freed is ever consulted again.
pub proof fn lemma_route_after_final_destroy(slots: Map<u64, bool>, hwnd: u64, msg: u32)
    requires
        msg != WM_NCCREATE,
    ensures
        ({
            let after = spec_route(slots, hwnd, WM_NCDESTROY).0;
            &&& !after.contains_key(hwnd)
            &&& spec_route(after, hwnd, msg).1 == RouteOutcome::DefaultHandling
            &&& spec_route(after, hwnd, msg).0 == after
        }),
{
}

} // verus!
