//! The Tsetlin automaton: a two-action learning unit whose signed depth
//! counter encodes both the action and how firmly it is held.
use vstd::prelude::*;

use crate::random::draw_below;

verus! {

/// What an automaton decides for its literal.
#[derive(Debug, Clone, Copy, PartialEq, Eq, Structural)]
pub enum Action {
    /// The literal takes part in the clause.
    Include,
    /// The literal is left out of the clause.
    Exclude,
}

/// The action held at a given state: positive states include, the rest
/// (zero among them) exclude.
pub open spec fn action_of(state: int) -> Action {
    if state > 0 {
        Action::Include
    } else {
        Action::Exclude
    }
}

/// One reward: a step deeper into the current action, stopping at the
/// boundary of the depth limit.
pub open spec fn reward_state(state: int, depth: int) -> int {
    if state > 0 {
        if state + 1 < depth { state + 1 } else { depth }
    } else {
        if state - 1 > -depth { state - 1 } else { -depth }
    }
}

/// One penalty: a step toward the other action. From a non-positive state
/// the step is upward, so `-1` goes to `0`, which still excludes.
pub open spec fn penalize_state(state: int) -> int {
    if state > 0 {
        state - 1
    } else {
        state + 1
    }
}

/// The state reached after `n` penalties in a row.
pub open spec fn penalize_times(state: int, n: nat) -> int
    decreases n,
{
    if n == 0 {
        state
    } else {
        penalize_times(penalize_state(state), (n - 1) as nat)
    }
}

/// A learning automaton with `depth` states on each side of the action
/// boundary.
#[derive(Debug, Clone, Copy)]
pub struct TsetlinAutomaton {
    state: i32,
    num_states: u32,
}

impl TsetlinAutomaton {
    /// The signed depth counter.
    pub closed spec fn state_spec(&self) -> int {
        self.state as int
    }

    /// The number of states on each side of the boundary.
    pub closed spec fn depth_spec(&self) -> int {
        self.num_states as int
    }

    /// The depth limit is positive and fits the counter, and the counter
    /// lies within it.
    pub open spec fn wf(&self) -> bool {
        &&& 1 <= self.depth_spec() <= i32::MAX
        &&& -self.depth_spec() <= self.state_spec() <= self.depth_spec()
    }

    /// The action currently held.
    pub open spec fn action_spec(&self) -> Action {
        action_of(self.state_spec())
    }

    /// An automaton with `num_states` states per action, in the deepest
    /// exclude state.
    pub fn new(num_states: u32) -> (r: Self)
        requires
            1 <= num_states <= i32::MAX,
        ensures
            r.wf(),
            r.depth_spec() == num_states as int,
            r.state_spec() == -(num_states as int),
            r.action_spec() == Action::Exclude,
    {
        TsetlinAutomaton { state: -(num_states as i32), num_states }
    }

    /// The signed depth counter.
    pub fn state(&self) -> (r: i32)
        ensures
            r as int == self.state_spec(),
    {
        self.state
    }

    /// The number of states per action.
    pub fn num_states(&self) -> (r: u32)
        ensures
            r as int == self.depth_spec(),
    {
        self.num_states
    }

    /// The action currently held, decided by the sign of the counter alone.
    pub fn action(&self) -> (r: Action)
        ensures
            r == action_of(self.state_spec()),
    {
        if self.state > 0 {
            Action::Include
        } else {
            Action::Exclude
        }
    }

    /// Reinforces the current action, saturating at the depth limit.
    pub fn reward(&mut self)
        requires
            old(self).wf(),
        ensures
            final(self).wf(),
            final(self).depth_spec() == old(self).depth_spec(),
            final(self).state_spec() == reward_state(old(self).state_spec(), old(self).depth_spec()),
    {
        let limit = self.num_states as i32;
        if self.state > 0 {
            if self.state < limit - 1 {
                self.state = self.state + 1;
            } else {
                self.state = limit;
            }
        } else {
            if self.state - 1 > -limit {
                self.state = self.state - 1;
            } else {
                self.state = -limit;
            }
        }
    }

    /// Moves one step toward the opposite action.
    pub fn penalize(&mut self)
        requires
            old(self).wf(),
        ensures
            final(self).wf(),
            final(self).depth_spec() == old(self).depth_spec(),
            final(self).state_spec() == penalize_state(old(self).state_spec()),
    {
        if self.state > 0 {
            self.state = self.state - 1;
        } else {
            self.state = self.state + 1;
        }
    }

    /// Applies one transition (a reward or a penalty) when `draw` falls
    /// below `numerator`, and nothing otherwise.
    pub fn update_with_draw(&mut self, reward: bool, draw: u64, numerator: u64)
        requires
            old(self).wf(),
        ensures
            final(self).wf(),
            final(self).depth_spec() == old(self).depth_spec(),
            final(self).state_spec() == if draw < numerator {
                if reward {
                    reward_state(old(self).state_spec(), old(self).depth_spec())
                } else {
                    penalize_state(old(self).state_spec())
                }
            } else {
                old(self).state_spec()
            },
    {
        if draw < numerator {
            if reward {
                self.reward();
            } else {
                self.penalize();
            }
        }
    }

    /// With probability `numerator / denominator` applies one transition (a
    /// reward or a penalty); otherwise leaves the automaton as it is. Exactly
    /// one value `r` is drawn from `rng`, below `denominator`, and returned;
    /// the transition is applied exactly when `r < numerator`. A probability
    /// of zero never changes the automaton; one of at least one always
    /// applies the transition.
    pub fn update_with_probability(
        &mut self,
        reward: bool,
        numerator: u64,
        denominator: u64,
        rng: &mut rand::rngs::StdRng,
    ) -> (r: u64)
        requires
            old(self).wf(),
            denominator > 0,
        ensures
            r < denominator,
            final(self).wf(),
            final(self).depth_spec() == old(self).depth_spec(),
            final(self).state_spec() == if r < numerator {
                if reward {
                    reward_state(old(self).state_spec(), old(self).depth_spec())
                } else {
                    penalize_state(old(self).state_spec())
                }
            } else {
                old(self).state_spec()
            },
    {
        let draw = draw_below(rng, denominator);
        self.update_with_draw(reward, draw, numerator);
        draw
    }
}

impl Default for TsetlinAutomaton {
    /// An automaton with a hundred states per action, excluding.
    fn default() -> (r: Self)
        ensures
            r.wf(),
            r.depth_spec() == 100,
            r.state_spec() == -100,
    {
        Self::new(100)
    }
}

/// From the deepest exclude state, `depth + 1` penalties in a row reach the
/// include side, and `depth` penalties do not.
pub proof fn lemma_penalize_flips_after_depth_plus_one(depth: int)
    requires
        depth >= 1,
    ensures
        action_of(penalize_times(-depth, (depth + 1) as nat)) == Action::Include,
        action_of(penalize_times(-depth, depth as nat)) == Action::Exclude,
{
    lemma_penalize_climbs(-depth, (depth + 1) as nat);
    lemma_penalize_climbs(-depth, depth as nat);
}

/// From a non-positive state, penalties climb one step each until the first
/// positive state.
pub proof fn lemma_penalize_climbs(state: int, n: nat)
    requires
        n > 0 ==> state <= 0,
        state + n <= 1,
    ensures
        penalize_times(state, n) == state + n,
    decreases n,
{
    if n > 0 {
        lemma_penalize_climbs(state + 1, (n - 1) as nat);
    }
}

} // verus!
