//! Listeners, the dispatch of one event to all of them, and the main loop.
//!
//! A listener takes the application and an event and gives the application
//! back, changed as it saw fit: it may create and destroy windows, draw, and
//! ask the loop to end.

use vstd::prelude::*;
use crate::decode::{decode, decode_event, Decoded, RawEvent};
use crate::x11::X11Application;
use crate::Event;

verus! {

/// The listeners of an application, in the order of their registration.
pub struct ListenerRegistry<L> {
    pub(crate) listeners: Vec<L>,
}

impl<L> View for ListenerRegistry<L> {
    type V = Seq<L>;

    closed spec fn view(&self) -> Seq<L> {
        self.listeners@
    }
}

/// Whether the main loop goes on.
#[derive(Copy, Clone, Debug, PartialEq, Eq)]
pub enum LoopState {
    Running,
    Terminated,
}

/// What one turn of the main loop did.
#[derive(Copy, Clone, Debug, PartialEq, Eq)]
pub struct Step {
    /// What the record was; `None` if the wait ended without a record.
    pub decoded: Option<Decoded>,
    /// Whether the loop waits for another record.
    pub state: LoopState,
}

/// `chain` holds the application before the first listener, between each
/// listener and the next and after the last: listener `i` took `chain[i]` and
/// gave `chain[i + 1]`.
pub open spec fn dispatch_chain<C, L: Fn(X11Application<C>, Event<u32>) -> X11Application<C>>(
    listeners: Seq<L>,
    event: Event<u32>,
    chain: Seq<X11Application<C>>,
) -> bool {
    &&& chain.len() == listeners.len() + 1
    &&& forall|i: int|
        0 <= i < listeners.len() ==> call_ensures(
            listeners[i],
            (chain[i], event),
            #[trigger] chain[i + 1],
        )
}

/// `after` is what `before` becomes when every listener is called with
/// `event`, once each, in the order of `listeners`, each on what the one
/// before it gave back.
pub open spec fn dispatched<C, L: Fn(X11Application<C>, Event<u32>) -> X11Application<C>>(
    listeners: Seq<L>,
    event: Event<u32>,
    before: X11Application<C>,
    after: X11Application<C>,
) -> bool {
    exists|chain: Seq<X11Application<C>>|
        #![auto]
        dispatch_chain(listeners, event, chain) && chain[0] == before && chain.last() == after
}

/// `after` is what `before` becomes in one turn of the main loop on `raw`:
/// a record that decodes to an event is dispatched; any other record, or
/// none, changes nothing.
pub open spec fn stepped<C, L: Fn(X11Application<C>, Event<u32>) -> X11Application<C>>(
    listeners: Seq<L>,
    raw: Option<RawEvent>,
    before: X11Application<C>,
    after: X11Application<C>,
) -> bool {
    match raw {
        Some(record) => match decode(record, before@.atoms.wm_delete_window) {
            Decoded::Event(event) => dispatched(listeners, event, before, after),
            _ => after == before,
        },
        None => after == before,
    }
}

/// `chain` holds the application before each of the first `consumed` turns
/// on `events` and after the last of them. The loop takes its first record
/// whatever the quit flag says, goes on while the flag is down after a turn,
/// and stops short of the end of `events` only with the flag up.
pub open spec fn run_chain<C, L: Fn(X11Application<C>, Event<u32>) -> X11Application<C>>(
    listeners: Seq<L>,
    events: Seq<Option<RawEvent>>,
    chain: Seq<X11Application<C>>,
    consumed: int,
) -> bool {
    &&& 0 <= consumed <= events.len()
    &&& chain.len() == consumed + 1
    &&& forall|k: int|
        0 <= k < consumed ==> stepped(listeners, events[k], chain[k], #[trigger] chain[k + 1])
    &&& forall|k: int| 0 < k < consumed ==> !(#[trigger] chain[k])@.should_quit
    &&& consumed < events.len() ==> consumed > 0 && chain[consumed]@.should_quit
}

/// The main loop, fed the records `events` one per wait, takes `consumed` of
/// them and turns `before` into `after`.
pub open spec fn ran<C, L: Fn(X11Application<C>, Event<u32>) -> X11Application<C>>(
    listeners: Seq<L>,
    events: Seq<Option<RawEvent>>,
    before: X11Application<C>,
    after: X11Application<C>,
    consumed: int,
) -> bool {
    exists|chain: Seq<X11Application<C>>|
        #![auto]
        run_chain(listeners, events, chain, consumed) && chain[0] == before && chain.last()
            == after
}

/// With no listener registered, dispatching an event changes nothing.
pub proof fn lemma_dispatch_to_none<C, L: Fn(X11Application<C>, Event<u32>) -> X11Application<C>>(
    event: Event<u32>,
    before: X11Application<C>,
    after: X11Application<C>,
)
    ensures
        dispatched(Seq::<L>::empty(), event, before, after) <==> after == before,
{
    if after == before {
        let chain = seq![before];
        assert(dispatch_chain(Seq::<L>::empty(), event, chain));
        assert(chain[0] == before && chain.last() == after);
    }
    if dispatched(Seq::<L>::empty(), event, before, after) {
        let chain = choose|chain: Seq<X11Application<C>>|
            #![auto]
            dispatch_chain(Seq::<L>::empty(), event, chain) && chain[0] == before && chain.last()
                == after;
        assert(chain.last() == chain[0]);
    }
}

/// Listeners are called in the order of their registration, once each: to
/// dispatch to `listeners` and one more listener registered after them is to
/// dispatch to `listeners` and then to call that last one, once, on what they
/// left.
pub proof fn lemma_dispatch_in_order<C, L: Fn(X11Application<C>, Event<u32>) -> X11Application<C>>(
    listeners: Seq<L>,
    last: L,
    event: Event<u32>,
    before: X11Application<C>,
    after: X11Application<C>,
)
    ensures
        dispatched(listeners.push(last), event, before, after) <==> exists|
            middle: X11Application<C>,
        |
            dispatched(listeners, event, before, middle) && #[trigger] call_ensures(
                last,
                (middle, event),
                after,
            ),
{
    let count = listeners.len() as int;
    if dispatched(listeners.push(last), event, before, after) {
        let chain = choose|chain: Seq<X11Application<C>>|
            #![auto]
            dispatch_chain(listeners.push(last), event, chain) && chain[0] == before
                && chain.last() == after;
        let shorter = chain.drop_last();
        let middle = chain[count];
        assert forall|i: int| 0 <= i < count implies call_ensures(
            listeners[i],
            (shorter[i], event),
            #[trigger] shorter[i + 1],
        ) by {
            assert(listeners.push(last)[i] == listeners[i]);
            assert(chain[i + 1] == shorter[i + 1]);
        }
        assert(dispatch_chain(listeners, event, shorter));
        assert(shorter[0] == before && shorter.last() == middle);
        assert(listeners.push(last)[count] == last);
        assert(chain[count + 1] == after);
        assert(call_ensures(last, (middle, event), after));
    }
    if exists|middle: X11Application<C>|
        dispatched(listeners, event, before, middle) && #[trigger] call_ensures(
            last,
            (middle, event),
            after,
        ) {
        let middle = choose|middle: X11Application<C>|
            dispatched(listeners, event, before, middle) && #[trigger] call_ensures(
                last,
                (middle, event),
                after,
            );
        let shorter = choose|chain: Seq<X11Application<C>>|
            #![auto]
            dispatch_chain(listeners, event, chain) && chain[0] == before && chain.last()
                == middle;
        let chain = shorter.push(after);
        assert forall|i: int| 0 <= i < count + 1 implies call_ensures(
            listeners.push(last)[i],
            (chain[i], event),
            #[trigger] chain[i + 1],
        ) by {
            if i < count {
                assert(chain[i + 1] == shorter[i + 1]);
            }
        }
        assert(dispatch_chain(listeners.push(last), event, chain));
        assert(chain[0] == before && chain.last() == after);
    }
}

/// Once the quit flag is up after a turn, the main loop takes no further
/// record: a turn that leaves the flag up is the last one.
pub proof fn lemma_no_turn_after_quit<C, L: Fn(X11Application<C>, Event<u32>) -> X11Application<C>>(
    listeners: Seq<L>,
    events: Seq<Option<RawEvent>>,
    chain: Seq<X11Application<C>>,
    consumed: int,
    turn: int,
)
    requires
        run_chain(listeners, events, chain, consumed),
        0 < turn <= consumed,
        chain[turn]@.should_quit,
    ensures
        turn == consumed,
{
}

/// The main loop leaves records untaken only if it was asked to quit, and it
/// takes none only if there is none.
pub proof fn lemma_run_ends_on_quit<C, L: Fn(X11Application<C>, Event<u32>) -> X11Application<C>>(
    listeners: Seq<L>,
    events: Seq<Option<RawEvent>>,
    before: X11Application<C>,
    after: X11Application<C>,
    consumed: int,
)
    requires
        ran(listeners, events, before, after, consumed),
    ensures
        consumed < events.len() ==> after@.should_quit,
        consumed == 0 <==> events.len() == 0,
        consumed == 0 ==> after == before,
{
}

impl<L> ListenerRegistry<L> {
    /// Every listener can be called on every application and every event.
    pub open spec fn ready<C>(&self) -> bool where
        L: Fn(X11Application<C>, Event<u32>) -> X11Application<C>,
    {
        forall|i: int, app: X11Application<C>, event: Event<u32>|
            0 <= i < self@.len() ==> #[trigger] call_requires(self@[i], (app, event))
    }

    /// A registry without listeners.
    pub fn new() -> (registry: Self)
        ensures
            registry@ == Seq::<L>::empty(),
    {
        ListenerRegistry { listeners: Vec::new() }
    }

    /// Registers `handler` behind the listeners already there.
    pub fn add_event_listener(&mut self, handler: L)
        ensures
            final(self)@ == old(self)@.push(handler),
    {
        self.listeners.push(handler);
    }

    /// How many listeners are registered.
    pub fn len(&self) -> (count: usize)
        ensures
            count == self@.len(),
    {
        self.listeners.len()
    }
}

impl<C> X11Application<C> {
    /// Calls every listener with `event`, in the order of registration.
    pub fn trigger_event<L>(&mut self, listeners: &ListenerRegistry<L>, event: Event<u32>) where
        L: Fn(X11Application<C>, Event<u32>) -> X11Application<C>,
        requires
            listeners.ready::<C>(),
        ensures
            dispatched(listeners@, event, *old(self), *final(self)),
    {
        let mut app = X11Application::detached();
        std::mem::swap(self, &mut app);
        let ghost mut chain: Seq<X11Application<C>> = seq![app];
        let mut next: usize = 0;
        while next < listeners.listeners.len()
            invariant
                next <= listeners@.len(),
                listeners.ready::<C>(),
                chain.len() == next + 1,
                chain[0] == *old(self),
                chain.last() == app,
                forall|i: int|
                    0 <= i < next ==> call_ensures(
                        listeners@[i],
                        (chain[i], event),
                        #[trigger] chain[i + 1],
                    ),
            decreases listeners@.len() - next,
        {
            app = (listeners.listeners[next])(app, event);
            proof {
                chain = chain.push(app);
            }
            next = next + 1;
        }
        *self = app;
        assert(dispatch_chain(listeners@, event, chain));
    }

    /// One turn of the main loop: decodes what the wait for the next record
    /// returned, dispatches it if it is an event, and says whether the loop
    /// goes on. A wait that returned no record changes nothing and does not
    /// by itself end the loop.
    pub fn step<L>(&mut self, listeners: &ListenerRegistry<L>, raw: Option<RawEvent>) -> (step:
        Step) where L: Fn(X11Application<C>, Event<u32>) -> X11Application<C>
        requires
            listeners.ready::<C>(),
        ensures
            stepped(listeners@, raw, *old(self), *final(self)),
            step.decoded == match raw {
                Some(record) => Some(decode(record, old(self)@.atoms.wm_delete_window)),
                None => None,
            },
            step.state == if final(self)@.should_quit {
                LoopState::Terminated
            } else {
                LoopState::Running
            },
    {
        let decoded = match raw {
            Some(record) => {
                let decoded = decode_event(&record, self.wm_delete_window());
                if let Decoded::Event(event) = decoded {
                    self.trigger_event(listeners, event);
                }
                Some(decoded)
            },
            None => None,
        };
        let state = if self.should_quit() {
            LoopState::Terminated
        } else {
            LoopState::Running
        };
        Step { decoded, state }
    }

    /// The main loop on a recorded run of the display: `events` holds what
    /// each wait returned, in order. Takes records until the quit flag is up
    /// after a turn or the records run out, and returns how many it took.
    pub fn main_loop<L>(
        &mut self,
        listeners: &ListenerRegistry<L>,
        events: &Vec<Option<RawEvent>>,
    ) -> (consumed: usize) where L: Fn(X11Application<C>, Event<u32>) -> X11Application<C>
        requires
            listeners.ready::<C>(),
        ensures
            ran(listeners@, events@, *old(self), *final(self), consumed as int),
    {
        let ghost mut chain: Seq<X11Application<C>> = seq![*self];
        let mut consumed: usize = 0;
        while consumed < events.len()
            invariant
                listeners.ready::<C>(),
                consumed <= events@.len(),
                chain.len() == consumed + 1,
                chain[0] == *old(self),
                chain.last() == *self,
                forall|k: int|
                    0 <= k < consumed ==> stepped(
                        listeners@,
                        events@[k],
                        chain[k],
                        #[trigger] chain[k + 1],
                    ),
                forall|k: int| 0 < k <= consumed ==> !(#[trigger] chain[k])@.should_quit,
            decreases events@.len() - consumed,
        {
            let step = self.step(listeners, events[consumed]);
            consumed = consumed + 1;
            proof {
                chain = chain.push(*self);
            }
            if let LoopState::Terminated = step.state {
                assert(run_chain(listeners@, events@, chain, consumed as int));
                assert(chain[0] == *old(self) && chain.last() == *self);
                return consumed;
            }
        }
        assert(run_chain(listeners@, events@, chain, consumed as int));
        consumed
    }
}

} // verus!
