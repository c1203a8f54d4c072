use vstd::prelude::*;

verus! {

/// One delivery of a state to one observer.
#[derive(Debug, PartialEq, Eq)]
pub struct Notification<S> {
    pub subscriber: u64,
    pub state: S,
}

/// The deliveries owed for one transition: each registered observer, in
/// registration order, receives the new state once.
pub open spec fn fan_out<S>(subscribers: Seq<u64>, state: S) -> Seq<Notification<S>> {
    Seq::new(subscribers.len(), |i: int| Notification { subscriber: subscribers[i], state })
}

/// The observers registered with a state machine, each handle held once.
pub struct Subscribers {
    ids: Vec<u64>,
}

impl View for Subscribers {
    type V = Seq<u64>;

    closed spec fn view(&self) -> Seq<u64> {
        self.ids@
    }
}

impl Subscribers {
    /// No handle is registered twice.
    pub closed spec fn wf(&self) -> bool {
        self.ids@.no_duplicates()
    }

    /// A well-formed set holds no handle twice.
    pub proof fn lemma_wf_no_duplicates(&self)
        requires
            self.wf(),
        ensures
            self@.no_duplicates(),
    {
    }

    pub fn new() -> (r: Subscribers)
        ensures
            r.wf(),
            r@ == Seq::<u64>::empty(),
    {
        Subscribers { ids: Vec::new() }
    }

    pub fn contains(&self, subscriber: u64) -> (r: bool)
        ensures
            r == self@.contains(subscriber),
    {
        let mut i: usize = 0;
        while i < self.ids.len()
            invariant
                0 <= i <= self.ids@.len(),
                forall|j: int| 0 <= j < i ==> self.ids@[j] != subscriber,
            decreases self.ids@.len() - i,
        {
            if self.ids[i] == subscriber {
                return true;
            }
            i = i + 1;
        }
        false
    }

    /// Registers a handle; registering one that is already present changes
    /// nothing.
    pub fn insert(&mut self, subscriber: u64)
        requires
            old(self).wf(),
        ensures
            final(self).wf(),
            final(self)@ == (if old(self)@.contains(subscriber) {
                old(self)@
            } else {
                old(self)@.push(subscriber)
            }),
    {
        if !self.contains(subscriber) {
            self.ids.push(subscriber);
        }
    }

    /// The deliveries of `state` to every registered observer.
    pub fn notify_all<S: Copy>(&self, state: S) -> (r: Vec<Notification<S>>)
        ensures
            r@ == fan_out(self@, state),
    {
        let mut out: Vec<Notification<S>> = Vec::new();
        let mut i: usize = 0;
        while i < self.ids.len()
            invariant
                0 <= i <= self.ids@.len(),
                out@ == fan_out(self.ids@.subrange(0, i as int), state),
            decreases self.ids@.len() - i,
        {
            out.push(Notification { subscriber: self.ids[i], state });
            i = i + 1;
            assert(out@ =~= fan_out(self.ids@.subrange(0, i as int), state));
        }
        assert(self.ids@.subrange(0, i as int) =~= self.ids@);
        out
    }
}

/// Fan-out, not fan-in: when no observer is registered twice, one transition
/// delivers the new state to every registered observer exactly once, and to
/// nobody else.
pub proof fn lemma_fan_out_exactly_once<S>(subscribers: Seq<u64>, state: S)
    requires
        subscribers.no_duplicates(),
    ensures
        fan_out(subscribers, state).len() == subscribers.len(),
        forall|i: int|
            0 <= i < fan_out(subscribers, state).len() ==> {
                &&& #[trigger] fan_out(subscribers, state)[i].state == state
                &&& subscribers.contains(fan_out(subscribers, state)[i].subscriber)
            },
        forall|id: u64|
            subscribers.contains(id) ==> exists|i: int|
                0 <= i < fan_out(subscribers, state).len() && #[trigger] fan_out(
                    subscribers,
                    state,
                )[i].subscriber == id,
        forall|i: int, j: int|
            0 <= i < fan_out(subscribers, state).len() && 0 <= j < fan_out(
                subscribers,
                state,
            ).len() && #[trigger] fan_out(subscribers, state)[i].subscriber == #[trigger] fan_out(
                subscribers,
                state,
            )[j].subscriber ==> i == j,
{
    let out = fan_out(subscribers, state);
    assert forall|i: int| 0 <= i < out.len() implies subscribers.contains(out[i].subscriber) by {
        assert(subscribers[i] == out[i].subscriber);
    }
    assert forall|id: u64| subscribers.contains(id) implies exists|i: int|
        0 <= i < out.len() && #[trigger] out[i].subscriber == id by {
        let k = choose|k: int| 0 <= k < subscribers.len() && subscribers[k] == id;
        assert(out[k].subscriber == id);
    }
}

/// The states that the deliveries `ns` hand to observer `id`, in order.
pub open spec fn deliveries_to<S>(ns: Seq<Notification<S>>, id: u64) -> Seq<S>
    decreases ns.len(),
{
    if ns.len() == 0 {
        Seq::empty()
    } else {
        deliveries_to(ns.drop_last(), id) + (if ns.last().subscriber == id {
            seq![ns.last().state]
        } else {
            Seq::empty()
        })
    }
}

/// What one observer receives from two batches of deliveries is what it
/// receives from the first, then what it receives from the second.
pub proof fn lemma_deliveries_to_append<S>(a: Seq<Notification<S>>, b: Seq<Notification<S>>, id: u64)
    ensures
        deliveries_to(a + b, id) == deliveries_to(a, id) + deliveries_to(b, id),
    decreases b.len(),
{
    if b.len() == 0 {
        assert(a + b =~= a);
        assert(deliveries_to(a, id) + deliveries_to(b, id) =~= deliveries_to(a, id));
    } else {
        lemma_deliveries_to_append(a, b.drop_last(), id);
        assert((a + b).drop_last() =~= a + b.drop_last());
        assert((a + b).last() == b.last());
        assert(deliveries_to(a + b, id) =~= deliveries_to(a, id) + deliveries_to(b, id));
    }
}

/// One transition hands each registered observer the new state exactly once
/// and hands nothing to anyone else, when no observer is registered twice.
pub proof fn lemma_fan_out_delivers_once<S>(subscribers: Seq<u64>, state: S, id: u64)
    requires
        subscribers.no_duplicates(),
    ensures
        deliveries_to(fan_out(subscribers, state), id) == (if subscribers.contains(id) {
            seq![state]
        } else {
            Seq::<S>::empty()
        }),
    decreases subscribers.len(),
{
    if subscribers.len() > 0 {
        let rest = subscribers.drop_last();
        assert(rest.no_duplicates()) by {
            assert forall|i: int, j: int|
                0 <= i < rest.len() && 0 <= j < rest.len() && i != j implies rest[i]
                != rest[j] by {
                assert(rest[i] == subscribers[i] && rest[j] == subscribers[j]);
            }
        }
        lemma_fan_out_delivers_once(rest, state, id);
        assert(fan_out(subscribers, state).drop_last() =~= fan_out(rest, state));
        let last = subscribers.last();
        assert(!rest.contains(last)) by {
            if rest.contains(last) {
                let k = choose|k: int| 0 <= k < rest.len() && rest[k] == last;
                assert(subscribers[k] == subscribers[subscribers.len() - 1]);
            }
        }
        assert(subscribers.contains(id) == (rest.contains(id) || last == id)) by {
            if subscribers.contains(id) && last != id {
                let k = choose|k: int| 0 <= k < subscribers.len() && subscribers[k] == id;
                assert(rest[k] == id);
            }
            if rest.contains(id) {
                let k = choose|k: int| 0 <= k < rest.len() && rest[k] == id;
                assert(subscribers[k] == id);
            }
            if last == id {
                assert(subscribers[subscribers.len() - 1] == id);
            }
        }
        assert(fan_out(subscribers, state).last().subscriber == last);
        assert(deliveries_to(fan_out(subscribers, state), id) =~= (if subscribers.contains(id) {
            seq![state]
        } else {
            Seq::<S>::empty()
        }));
    } else {
        assert(fan_out(subscribers, state).len() == 0);
        assert(!subscribers.contains(id));
    }
}

} // verus!
