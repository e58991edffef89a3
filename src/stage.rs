//! The stages of the timer and the order in which they follow each other.

use vstd::prelude::*;

verus! {

/// The stage that the timer is in.
#[derive(Debug, Clone, Copy, PartialEq, Eq, Structural)]
pub enum StageState {
    Preparation,
    Concentration,
    Relaxation,
}

/// The successor of a stage: preparation leads to concentration, which
/// alternates with relaxation from then on.
pub open spec fn next_stage(s: StageState) -> StageState {
    match s {
        StageState::Preparation => StageState::Concentration,
        StageState::Concentration => StageState::Relaxation,
        StageState::Relaxation => StageState::Concentration,
    }
}

/// The stage reached from `s` after `n` steps.
pub open spec fn stage_after(s: StageState, n: nat) -> StageState
    decreases n,
{
    if n == 0 {
        s
    } else {
        next_stage(stage_after(s, (n - 1) as nat))
    }
}

/// The name of a stage as it is shown to users and sent over the wire.
pub open spec fn stage_name(s: StageState) -> Seq<char> {
    match s {
        StageState::Preparation => seq!['P', 'r', 'e', 'p', 'a', 'r', 'a', 't', 'i', 'o', 'n'],
        StageState::Concentration => seq![
            'C', 'o', 'n', 'c', 'e', 'n', 't', 'r', 'a', 't', 'i', 'o', 'n',
        ],
        StageState::Relaxation => seq!['R', 'e', 'l', 'a', 'x', 'a', 't', 'i', 'o', 'n'],
    }
}

impl StageState {
    /// The stage that a fresh timer starts in.
    pub fn initial() -> (r: Self)
        ensures
            r == StageState::Preparation,
    {
        StageState::Preparation
    }

    /// The stage that follows this one.
    pub fn next(self) -> (r: Self)
        ensures
            r == next_stage(self),
    {
        match self {
            StageState::Preparation => StageState::Concentration,
            StageState::Concentration => StageState::Relaxation,
            StageState::Relaxation => StageState::Concentration,
        }
    }

    /// The name of this stage.
    pub fn to_string(&self) -> (r: String)
        ensures
            r@ == stage_name(*self),
    {
        let name = match self {
            StageState::Preparation => "Preparation",
            StageState::Concentration => "Concentration",
            StageState::Relaxation => "Relaxation",
        };
        proof {
            reveal_strlit("Preparation");
            reveal_strlit("Concentration");
            reveal_strlit("Relaxation");
        }
        name.to_owned()
    }
}

/// Preparation is left after the first step and never comes back: from then
/// on the stages alternate, concentration after an odd number of steps and
/// relaxation after an even one.
pub proof fn lemma_stage_cycle(n: nat)
    requires
        n >= 1,
    ensures
        stage_after(StageState::Preparation, n) != StageState::Preparation,
        n % 2 == 1 ==> stage_after(StageState::Preparation, n) == StageState::Concentration,
        n % 2 == 0 ==> stage_after(StageState::Preparation, n) == StageState::Relaxation,
        stage_after(StageState::Preparation, n + 2) == stage_after(StageState::Preparation, n),
    decreases n,
{
    let p = StageState::Preparation;
    assert(stage_after(p, n) == next_stage(stage_after(p, (n - 1) as nat)));
    if n > 1 {
        lemma_stage_cycle((n - 1) as nat);
        assert(n % 2 == 1 <==> (n - 1) as nat % 2 == 0);
    } else {
        assert(stage_after(p, 0) == p);
    }
    assert(stage_after(StageState::Preparation, n + 1) == next_stage(
        stage_after(StageState::Preparation, n),
    ));
}

} // verus!
