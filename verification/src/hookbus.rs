//! The hook bus: which handlers an event goes to, in which order, and when
//! the chain stops.
//!
//! The bus keeps the handlers and decides; it does not call them. A dispatch
//! names the handler to call next, takes what that handler returned, and
//! says when it is over, so that handlers are free to wait for the network.

use crate::types::{HookResult, HookType, ReturnType};
use vstd::prelude::*;

verus! {

/// A handler with the registration it belongs to and the kind of event it
/// is for.
pub struct Entry<H> {
    pub registration: usize,
    pub kind: HookType,
    pub handler: H,
}

/// The registry of handlers. Handlers stand in the order in which they were
/// added; each registration is started or stopped as a whole.
pub struct HookBus<H> {
    pub entries: Vec<Entry<H>>,
    pub started: Vec<bool>,
}

/// Whether the entry `i` is called for events of the kind `kind`: it is for
/// that kind and its registration is started.
pub open spec fn is_live<H>(bus: HookBus<H>, kind: HookType, i: int) -> bool {
    &&& 0 <= i < bus.entries@.len()
    &&& bus.entries@[i].kind == kind
    &&& bus.entries@[i].registration < bus.started@.len()
    &&& bus.started@[bus.entries@[i].registration as int]
}

/// Among the first `n` entries, the indices of those called for events of
/// the kind `kind`, in their order.
pub open spec fn chain_upto<H>(bus: HookBus<H>, kind: HookType, n: int) -> Seq<usize>
    decreases n,
{
    if n <= 0 {
        Seq::empty()
    } else if is_live(bus, kind, n - 1) {
        chain_upto(bus, kind, n - 1).push((n - 1) as usize)
    } else {
        chain_upto(bus, kind, n - 1)
    }
}

/// The chain of the kind `kind`: the indices of the handlers that an event
/// of that kind goes to, in the order of their registration.
pub open spec fn chain_spec<H>(bus: HookBus<H>, kind: HookType) -> Seq<usize> {
    chain_upto(bus, kind, bus.entries@.len() as int)
}

impl<H> HookBus<H> {
    /// Every entry belongs to a registration of this bus.
    pub open spec fn wf(&self) -> bool {
        forall|i: int|
            0 <= i < self.entries@.len() ==> (#[trigger] self.entries@[i]).registration
                < self.started@.len()
    }

    /// A bus without handlers.
    pub fn new() -> (r: HookBus<H>)
        ensures
            r.wf(),
            r.entries@.len() == 0,
            r.started@.len() == 0,
    {
        HookBus { entries: Vec::new(), started: Vec::new() }
    }

    /// Opens a registration and gives its token. It starts out stopped.
    pub fn register(&mut self) -> (token: usize)
        requires
            old(self).wf(),
        ensures
            final(self).wf(),
            token == old(self).started@.len(),
            final(self).started@ == old(self).started@.push(false),
            final(self).entries == old(self).entries,
    {
        self.started.push(false);
        self.started.len() - 1
    }

    /// Adds `handler` for events of the kind `kind` behind all handlers added
    /// before. A token that this bus did not give adds nothing.
    pub fn add(&mut self, token: usize, kind: HookType, handler: H) -> (added: bool)
        requires
            old(self).wf(),
        ensures
            final(self).wf(),
            final(self).started == old(self).started,
            added == (token < old(self).started@.len()),
            added ==> final(self).entries@ == old(self).entries@.push(
                Entry { registration: token, kind, handler },
            ),
            !added ==> final(self).entries == old(self).entries,
    {
        if token < self.started.len() {
            self.entries.push(Entry { registration: token, kind, handler });
            true
        } else {
            false
        }
    }

    /// Starts the registration `token`: its handlers are called from now on.
    /// Starting what is started changes nothing.
    pub fn start(&mut self, token: usize)
        requires
            old(self).wf(),
        ensures
            final(self).wf(),
            final(self).entries == old(self).entries,
            final(self).started@ == if token < old(self).started@.len() {
                old(self).started@.update(token as int, true)
            } else {
                old(self).started@
            },
    {
        if token < self.started.len() {
            self.started.set(token, true);
        }
    }

    /// Stops the registration `token`: events pass its handlers by.
    /// Stopping what is stopped changes nothing.
    pub fn stop(&mut self, token: usize)
        requires
            old(self).wf(),
        ensures
            final(self).wf(),
            final(self).entries == old(self).entries,
            final(self).started@ == if token < old(self).started@.len() {
                old(self).started@.update(token as int, false)
            } else {
                old(self).started@
            },
    {
        if token < self.started.len() {
            self.started.set(token, false);
        }
    }

    /// The handler at the index `i`, to be called.
    pub fn handler_mut(&mut self, i: usize) -> (r: &mut H)
        requires
            i < old(self).entries@.len(),
        ensures
            *r == old(self).entries@[i as int].handler,
            final(self).started == old(self).started,
            final(self).entries@ == old(self).entries@.update(
                i as int,
                Entry {
                    registration: old(self).entries@[i as int].registration,
                    kind: old(self).entries@[i as int].kind,
                    handler: *final(r),
                },
            ),
    {
        &mut self.entries[i].handler
    }

    /// Begins the dispatch of an event of the kind `kind`: its chain is that
    /// of the handlers of that kind whose registration is started, and it
    /// starts with no accumulated result.
    pub fn dispatch(&self, kind: HookType) -> (r: Dispatch)
        requires
            self.wf(),
        ensures
            r.wf(),
            r.chain@ == chain_spec(*self, kind),
            r.pos == 0,
            r.going,
            r.acc.is_none(),
    {
        let mut chain: Vec<usize> = Vec::new();
        let mut i: usize = 0;
        while i < self.entries.len()
            invariant
                i <= self.entries.len(),
                self.wf(),
                chain@ == chain_upto(*self, kind, i as int),
            decreases self.entries.len() - i,
        {
            if self.entries[i].kind == kind && self.started[self.entries[i].registration] {
                chain.push(i);
            }
            i += 1;
        }
        Dispatch { chain, pos: 0, going: true, acc: None }
    }
}

/// One event on its way through its chain.
#[derive(Debug, PartialEq, Eq)]
pub struct Dispatch {
    /// The indices of the handlers to call, in order.
    pub chain: Vec<usize>,
    /// How many of them have returned.
    pub pos: usize,
    /// Whether every handler so far asked to go on.
    pub going: bool,
    /// The accumulated result so far.
    pub acc: Option<HookResult>,
}

impl Dispatch {
    /// No more handlers have returned than the chain has.
    pub open spec fn wf(&self) -> bool {
        self.pos <= self.chain@.len()
    }

    /// The handler to call next, if the dispatch is not over: the next of the
    /// chain, as long as every handler so far asked to go on.
    pub open spec fn next_spec(&self) -> Option<usize> {
        if self.going && self.pos < self.chain@.len() {
            Some(self.chain@[self.pos as int])
        } else {
            None
        }
    }

    /// The dispatch after the handler that was called has returned.
    pub open spec fn recorded(&self, returned: ReturnType) -> Dispatch {
        Dispatch {
            chain: self.chain,
            pos: (self.pos + 1) as usize,
            going: returned.0,
            acc: returned.1,
        }
    }

    /// The handler to call next, or nothing where the dispatch is over.
    pub fn next(&self) -> (r: Option<usize>)
        requires
            self.wf(),
        ensures
            r == self.next_spec(),
    {
        if self.going && self.pos < self.chain.len() {
            Some(self.chain[self.pos])
        } else {
            None
        }
    }

    /// Takes the accumulated result out, to hand it to the next handler.
    pub fn take_acc(&mut self) -> (r: Option<HookResult>)
        ensures
            r == old(self).acc,
            final(self).acc.is_none(),
            final(self).chain == old(self).chain,
            final(self).pos == old(self).pos,
            final(self).going == old(self).going,
    {
        self.acc.take()
    }

    /// Takes what the handler that was called returned: the chain goes on
    /// only if it asked so, and its result is the accumulated result from
    /// now on.
    pub fn record(&mut self, returned: ReturnType)
        requires
            old(self).wf(),
            old(self).next_spec().is_some(),
        ensures
            final(self).wf(),
            *final(self) == old(self).recorded(returned),
    {
        let len = self.chain.len();
        assert(self.pos < len);
        self.pos = self.pos + 1;
        self.going = returned.0;
        self.acc = returned.1;
    }

    /// The outcome of the dispatch: whether every handler that was called
    /// asked to go on, and the accumulated result.
    pub fn finish(self) -> (r: ReturnType)
        ensures
            r == (self.going, self.acc),
    {
        (self.going, self.acc)
    }
}

/// Once a handler has asked not to go on, the dispatch names no further
/// handler: none behind it gets to see the event.
pub proof fn lemma_stop_ends_dispatch(before: Dispatch, returned: ReturnType)
    requires
        before.wf(),
        before.next_spec().is_some(),
        !returned.0,
    ensures
        before.recorded(returned).next_spec().is_none(),
        before.recorded(returned).going == false,
{
}

} // verus!
