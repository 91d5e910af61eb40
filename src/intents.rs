//! Transition intents, the per-fighter queue that holds them for one tick, and the
//! resolution that applies them by priority.
use std::collections::VecDeque;

use vstd::prelude::*;

use crate::state::{FighterState, FighterStates, Grabbing, Holding, Throwing};

verus! {

/// A request to enter a state.
#[derive(Clone, Copy, Debug, PartialEq, Eq, Structural)]
pub struct StateTransition {
    pub state: FighterState,
    /// Only intents of higher priority than the current state's are applied.
    pub priority: i32,
    /// An additive transition keeps the current state.
    pub is_additive: bool,
}

impl StateTransition {
    /// An additive transition carries an additive state, and a replacing one does not; the
    /// payload is consistent.
    pub open spec fn wf(&self) -> bool {
        self.is_additive == self.state.spec_is_additive() && self.state.spec_payload_ok()
    }

    pub fn new(state: FighterState, priority: i32, is_additive: bool) -> (r: StateTransition)
        requires
            is_additive == state.spec_is_additive(),
            state.spec_payload_ok(),
        ensures
            r.state == state,
            r.priority == priority,
            r.is_additive == is_additive,
            r.wf(),
    {
        StateTransition { state, priority, is_additive }
    }

    /// A transition to `state` at the state's own priority.
    pub fn to_state(state: FighterState) -> (r: StateTransition)
        requires
            state.spec_payload_ok(),
        ensures
            r.state == state,
            r.priority == state.spec_priority(),
            r.is_additive == state.spec_is_additive(),
            r.wf(),
    {
        StateTransition {
            state,
            priority: state.priority(),
            is_additive: state.is_additive(),
        }
    }

    /// Applies this transition to a fighter's states and tells whether it was additive,
    /// that is whether the current state is still there.
    pub fn apply(self, states: &mut FighterStates) -> (r: bool)
        requires
            self.wf(),
            old(states).wf(),
        ensures
            r == self.is_additive,
            *final(states) == applied(*old(states), self),
            final(states).wf(),
    {
        if !self.is_additive {
            states.current = self.state;
        } else {
            match self.state {
                FighterState::Throwing(_) => states.throwing = true,
                FighterState::Grabbing(_) => states.grabbing = true,
                _ => states.holding = true,
            }
        }
        self.is_additive
    }
}

/// The states after one transition: a replacing one takes the place of the current state,
/// an additive one joins it.
pub open spec fn applied(states: FighterStates, t: StateTransition) -> FighterStates {
    if !t.is_additive {
        FighterStates { current: t.state, ..states }
    } else {
        match t.state {
            FighterState::Throwing(_) => FighterStates { throwing: true, ..states },
            FighterState::Grabbing(_) => FighterStates { grabbing: true, ..states },
            _ => FighterStates { holding: true, ..states },
        }
    }
}

/// Intent `i` is considered before intent `j`: higher priority first, queue order among
/// equal priorities.
pub open spec fn precedes(s: Seq<StateTransition>, i: int, j: int) -> bool {
    s[i].priority > s[j].priority || (s[i].priority == s[j].priority && i < j)
}

/// The intent would replace a current state of the given priority.
pub open spec fn replaces(t: StateTransition, current_priority: i32) -> bool {
    !t.is_additive && t.priority > current_priority
}

/// Among the first `n` intents, the first replacing one of greatest priority.
pub open spec fn winner_upto(s: Seq<StateTransition>, current_priority: i32, n: nat) -> Option<
    int,
>
    decreases n,
{
    if n == 0 {
        None
    } else {
        let prev = winner_upto(s, current_priority, (n - 1) as nat);
        let k = n - 1;
        if replaces(s[k], current_priority) && (prev is None || s[k].priority > s[prev->0].priority) {
            Some(k)
        } else {
            prev
        }
    }
}

/// What `winner_upto` picks is a replacing intent among the first `n`, of the greatest
/// priority there, and first among those of that priority.
pub proof fn lemma_winner_upto(s: Seq<StateTransition>, current_priority: i32, n: nat)
    requires
        n <= s.len(),
    ensures
        match winner_upto(s, current_priority, n) {
            Some(w) => {
                &&& 0 <= w < n
                &&& replaces(s[w], current_priority)
                &&& forall|j: int|
                    0 <= j < n && j != w && replaces(#[trigger] s[j], current_priority)
                        ==> precedes(s, w, j)
            },
            None => forall|j: int| 0 <= j < n ==> !replaces(#[trigger] s[j], current_priority),
        },
    decreases n,
{
    if n > 0 {
        lemma_winner_upto(s, current_priority, (n - 1) as nat);
    }
}

/// The intent that replaces the current state in a resolution, if any.
pub open spec fn winner(s: Seq<StateTransition>, current_priority: i32) -> Option<int> {
    winner_upto(s, current_priority, s.len())
}

/// Intent `k` is additive, outranks the current state, and comes before the replacing
/// intent (if there is one) in resolution order.
pub open spec fn additive_applied(s: Seq<StateTransition>, current_priority: i32, k: int) -> bool {
    &&& s[k].is_additive
    &&& s[k].priority > current_priority
    &&& match winner(s, current_priority) {
        None => true,
        Some(w) => precedes(s, k, w),
    }
}

/// Some intent among the first `n` adds `state`.
pub open spec fn adds_within(
    s: Seq<StateTransition>,
    current_priority: i32,
    state: FighterState,
    n: int,
) -> bool {
    exists|k: int| 0 <= k < n && #[trigger] additive_applied(s, current_priority, k) && s[k].state == state
}

/// Some intent of the queue adds `state`.
pub open spec fn adds(s: Seq<StateTransition>, current_priority: i32, state: FighterState) -> bool {
    adds_within(s, current_priority, state, s.len() as int)
}

/// The states after resolving the queue `s` against a current state of the given priority.
pub open spec fn resolved(
    states: FighterStates,
    s: Seq<StateTransition>,
    current_priority: i32,
) -> FighterStates {
    FighterStates {
        current: match winner(s, current_priority) {
            Some(w) => s[w].state,
            None => states.current,
        },
        throwing: states.throwing || adds(s, current_priority, FighterState::Throwing(Throwing)),
        grabbing: states.grabbing || adds(s, current_priority, FighterState::Grabbing(Grabbing)),
        holding: states.holding || adds(s, current_priority, FighterState::Holding(Holding)),
    }
}

/// The queue of transition intents of one fighter, gathered and spent within one tick.
pub struct StateTransitionIntents {
    pub queue: VecDeque<StateTransition>,
}

impl View for StateTransitionIntents {
    type V = Seq<StateTransition>;

    open spec fn view(&self) -> Seq<StateTransition> {
        self.queue@
    }
}

impl StateTransitionIntents {
    pub open spec fn wf(&self) -> bool {
        forall|i: int| 0 <= i < self@.len() ==> (#[trigger] self@[i]).wf()
    }

    pub fn new() -> (r: StateTransitionIntents)
        ensures
            r@.len() == 0,
            r.wf(),
    {
        StateTransitionIntents { queue: VecDeque::new() }
    }

    pub fn len(&self) -> (r: usize)
        ensures
            r == self@.len(),
    {
        self.queue.len()
    }

    pub fn is_empty(&self) -> (r: bool)
        ensures
            r == (self@.len() == 0),
    {
        self.queue.len() == 0
    }

    pub fn push_back(&mut self, t: StateTransition)
        requires
            old(self).wf(),
            t.wf(),
        ensures
            final(self)@ == old(self)@.push(t),
            final(self).wf(),
    {
        self.queue.push_back(t);
        proof {
            assert forall|i: int| 0 <= i < self@.len() implies (#[trigger] self@[i]).wf() by {
                if i < old(self)@.len() {
                    assert(self@[i] == old(self)@[i]);
                }
            }
        }
    }

    /// Drops every pending intent.
    pub fn clear(&mut self)
        ensures
            final(self)@.len() == 0,
            final(self).wf(),
    {
        self.queue.clear();
    }

    /// Drains the queue and applies, from highest priority down, every intent that outranks
    /// the current state, stopping at the first that replaces it. Equal priorities are taken
    /// in queue order.
    ///
    /// Returns whether the current state was replaced.
    pub fn transition_to_higher_priority_states(
        &mut self,
        states: &mut FighterStates,
        current_state_priority: i32,
    ) -> (replaced: bool)
        requires
            old(self).wf(),
            old(states).wf(),
        ensures
            final(self)@.len() == 0,
            final(self).wf(),
            *final(states) == resolved(*old(states), old(self)@, current_state_priority),
            final(states).wf(),
            replaced == (winner(old(self)@, current_state_priority) is Some),
    {
        let ghost s = self@;
        let ghost start = *states;
        let n = self.queue.len();
        let mut best: Option<usize> = None;
        let mut i: usize = 0;
        while i < n
            invariant
                s == self@,
                n == s.len(),
                i <= n,
                self.wf(),
                best matches Some(b) ==> b < i,
                winner_upto(s, current_state_priority, i as nat) == match best {
                    Some(b) => Some(b as int),
                    None => None::<int>,
                },
            decreases n - i,
        {
            let t = self.queue[i];
            if !t.is_additive && t.priority > current_state_priority {
                match best {
                    None => {
                        best = Some(i);
                    },
                    Some(b) => {
                        if t.priority > self.queue[b].priority {
                            best = Some(i);
                        }
                    },
                }
            }
            i = i + 1;
        }
        let mut k: usize = 0;
        while k < n
            invariant
                s == self@,
                n == s.len(),
                k <= n,
                self.wf(),
                start.wf(),
                winner(s, current_state_priority) == match best {
                    Some(b) => Some(b as int),
                    None => None::<int>,
                },
                best matches Some(b) ==> b < n,
                states.current == start.current,
                states.throwing == (start.throwing || adds_within(
                    s,
                    current_state_priority,
                    FighterState::Throwing(Throwing),
                    k as int,
                )),
                states.grabbing == (start.grabbing || adds_within(
                    s,
                    current_state_priority,
                    FighterState::Grabbing(Grabbing),
                    k as int,
                )),
                states.holding == (start.holding || adds_within(
                    s,
                    current_state_priority,
                    FighterState::Holding(Holding),
                    k as int,
                )),
            decreases n - k,
        {
            let t = self.queue[k];
            let before_winner = match best {
                None => true,
                Some(b) => {
                    let wp = self.queue[b].priority;
                    t.priority > wp || (t.priority == wp && k < b)
                },
            };
            assert(s[k as int].wf());
            if t.is_additive && t.priority > current_state_priority && before_winner {
                assert(additive_applied(s, current_state_priority, k as int));
                t.apply(states);
            }
            proof {
                let ki = k as int;
                assert forall|st: FighterState|
                    adds_within(s, current_state_priority, st, ki + 1) == (adds_within(
                        s,
                        current_state_priority,
                        st,
                        ki,
                    ) || (additive_applied(s, current_state_priority, ki) && s[ki].state
                        == st)) by {
                    if adds_within(s, current_state_priority, st, ki + 1) {
                        let j = choose|j: int|
                            0 <= j < ki + 1 && #[trigger] additive_applied(
                                s,
                                current_state_priority,
                                j,
                            ) && s[j].state == st;
                        if j < ki {
                            assert(adds_within(s, current_state_priority, st, ki));
                        }
                    }
                    if adds_within(s, current_state_priority, st, ki) {
                        let j = choose|j: int|
                            0 <= j < ki && #[trigger] additive_applied(
                                s,
                                current_state_priority,
                                j,
                            ) && s[j].state == st;
                        assert(0 <= j < ki + 1);
                    }
                }
            }
            k = k + 1;
        }
        proof {
            lemma_winner_upto(s, current_state_priority, s.len());
        }
        let replaced = match best {
            Some(b) => {
                let t = self.queue[b];
                assert(s[b as int].wf());
                t.apply(states);
                true
            },
            None => false,
        };
        self.queue.clear();
        replaced
    }
}

} // verus!

verus! {

/// Resolution only ever moves a fighter up the priority order: the current state after it
/// is the one before, or the payload of a replacing intent that outranked it. When every
/// intent carries its own state's priority, that state itself ranks strictly higher.
pub proof fn lemma_priority_monotonic(
    states: FighterStates,
    s: Seq<StateTransition>,
    current_priority: i32,
)
    ensures
        resolved(states, s, current_priority).current == states.current || exists|k: int|
            0 <= k < s.len() && replaces(#[trigger] s[k], current_priority) && s[k].state
                == resolved(states, s, current_priority).current,
        (forall|k: int| 0 <= k < s.len() ==> (#[trigger] s[k]).priority == s[k].state.spec_priority())
            ==> (resolved(states, s, current_priority).current == states.current
            || resolved(states, s, current_priority).current.spec_priority() > current_priority),
{
    lemma_winner_upto(s, current_priority, s.len());
}

/// An intent that outranks the current state and every other pending intent always takes
/// effect: so a death, whose priority no other state reaches, always wins.
pub proof fn lemma_highest_priority_wins(
    states: FighterStates,
    s: Seq<StateTransition>,
    current_priority: i32,
    k: int,
)
    requires
        0 <= k < s.len(),
        replaces(s[k], current_priority),
        forall|j: int| 0 <= j < s.len() && j != k ==> (#[trigger] s[j]).priority < s[k].priority,
    ensures
        winner(s, current_priority) == Some(k),
        resolved(states, s, current_priority).current == s[k].state,
{
    lemma_winner_upto(s, current_priority, s.len());
}

/// At most one intent replaces the current state in a resolution, and no intent ranked below
/// it takes effect: every additive intent applied comes before it in resolution order.
pub proof fn lemma_single_replacement(s: Seq<StateTransition>, current_priority: i32, k: int)
    requires
        0 <= k < s.len(),
        additive_applied(s, current_priority, k),
        winner(s, current_priority) is Some,
    ensures
        s[k].priority >= s[winner(s, current_priority)->0].priority,
        forall|j: int|
            0 <= j < s.len() && replaces(#[trigger] s[j], current_priority) && j != winner(
                s,
                current_priority,
            )->0 ==> precedes(s, winner(s, current_priority)->0, j),
{
    lemma_winner_upto(s, current_priority, s.len());
}

/// With no intent that outranks the current state, resolution changes nothing.
pub proof fn lemma_no_outranking_intent(
    states: FighterStates,
    s: Seq<StateTransition>,
    current_priority: i32,
)
    requires
        forall|j: int| 0 <= j < s.len() ==> (#[trigger] s[j]).priority <= current_priority,
    ensures
        resolved(states, s, current_priority) == states,
{
    lemma_winner_upto(s, current_priority, s.len());
    assert forall|st: FighterState| !adds(s, current_priority, st) by {
        if adds(s, current_priority, st) {
            let k = choose|k: int|
                0 <= k < s.len() && #[trigger] additive_applied(s, current_priority, k)
                    && s[k].state == st;
            assert(s[k].priority <= current_priority);
        }
    }
}

} // verus!
