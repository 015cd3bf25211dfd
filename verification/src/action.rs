//! Actions of the agent: the five discrete moves, and the layout of the
//! components of a continuous action vector.

use vstd::prelude::*;
use vstd::string::*;
use crate::config::{spec_component_names, spec_config_name, spec_dimension, ContinuousActionConfig};
use crate::text::{decimal, push_decimal};

verus! {

/// Discrete action space: NOOP, UP, DOWN, LEFT, RIGHT (indices 0 to 4).
#[derive(Debug, Clone, Copy, PartialEq, Eq, Structural)]
pub enum RLAction {
    Noop,
    /// +Y direction
    Up,
    /// -Y direction
    Down,
    /// -X direction
    Left,
    /// +X direction
    Right,
}

/// A unit step on the ground grid: each component is -1, 0 or 1.
#[derive(Debug, Clone, Copy, PartialEq, Eq, Structural)]
pub struct GridDirection {
    pub x: i8,
    pub y: i8,
}

/// The index of action `a` in the discrete action space.
pub open spec fn spec_action_index(a: RLAction) -> nat {
    match a {
        RLAction::Noop => 0,
        RLAction::Up => 1,
        RLAction::Down => 2,
        RLAction::Left => 3,
        RLAction::Right => 4,
    }
}

/// The action with index `i`, if `i < 5`.
pub open spec fn spec_action_from_index(i: nat) -> Option<RLAction> {
    if i == 0 {
        Some(RLAction::Noop)
    } else if i == 1 {
        Some(RLAction::Up)
    } else if i == 2 {
        Some(RLAction::Down)
    } else if i == 3 {
        Some(RLAction::Left)
    } else if i == 4 {
        Some(RLAction::Right)
    } else {
        None
    }
}

/// The movement direction of action `a`.
pub open spec fn spec_direction(a: RLAction) -> GridDirection {
    match a {
        RLAction::Noop => GridDirection { x: 0, y: 0 },
        RLAction::Up => GridDirection { x: 0, y: 1 },
        RLAction::Down => GridDirection { x: 0, y: -1i8 },
        RLAction::Left => GridDirection { x: -1i8, y: 0 },
        RLAction::Right => GridDirection { x: 1, y: 0 },
    }
}

/// Message for an action index outside 0..5.
pub open spec fn action_index_message(index: nat) -> Seq<char> {
    "Invalid action index: "@ + decimal(index) + ". Must be in range [0, 5)"@
}

impl RLAction {
    /// Parse an action from its integer index.
    pub fn from_index(index: usize) -> (r: Result<Self, String>)
        ensures
            r is Ok <==> index < 5,
            r matches Ok(a) ==> Some(a) == spec_action_from_index(index as nat),
            r matches Err(m) ==> m@ == action_index_message(index as nat),
    {
        match index {
            0 => Ok(RLAction::Noop),
            1 => Ok(RLAction::Up),
            2 => Ok(RLAction::Down),
            3 => Ok(RLAction::Left),
            4 => Ok(RLAction::Right),
            _ => {
                let mut m = String::from_str("Invalid action index: ");
                push_decimal(&mut m, index as u64);
                m.append(". Must be in range [0, 5)");
                Err(m)
            },
        }
    }

    /// The index of this action in the discrete action space.
    pub fn index(&self) -> (i: usize)
        ensures
            i == spec_action_index(*self),
    {
        match self {
            RLAction::Noop => 0,
            RLAction::Up => 1,
            RLAction::Down => 2,
            RLAction::Left => 3,
            RLAction::Right => 4,
        }
    }

    /// The movement direction of this action.
    pub fn to_direction(&self) -> (d: GridDirection)
        ensures
            d == spec_direction(*self),
    {
        match self {
            RLAction::Noop => GridDirection { x: 0, y: 0 },
            RLAction::Up => GridDirection { x: 0, y: 1 },
            RLAction::Down => GridDirection { x: 0, y: -1 },
            RLAction::Left => GridDirection { x: -1, y: 0 },
            RLAction::Right => GridDirection { x: 1, y: 0 },
        }
    }
}

/// Where each control sits in a continuous action vector. The velocity
/// components are always at indices 0 (vx) and 1 (vy).
#[derive(Debug, Clone, Copy, PartialEq, Eq, Structural)]
pub struct ActionLayout {
    pub sprint: usize,
    pub jump: Option<usize>,
    pub pitch: Option<usize>,
    pub roll: Option<usize>,
}

/// The layout of configuration `c`.
pub open spec fn spec_action_layout(c: ContinuousActionConfig) -> ActionLayout {
    match c {
        ContinuousActionConfig::Basic3D => ActionLayout { sprint: 2, jump: None, pitch: None, roll: None },
        ContinuousActionConfig::BasicWithJump4D => ActionLayout {
            sprint: 2,
            jump: Some(3),
            pitch: None,
            roll: None,
        },
        ContinuousActionConfig::Tilt5D => ActionLayout {
            sprint: 4,
            jump: None,
            pitch: Some(2),
            roll: Some(3),
        },
        ContinuousActionConfig::Full6D => ActionLayout {
            sprint: 5,
            jump: Some(2),
            pitch: Some(3),
            roll: Some(4),
        },
    }
}

/// The positions of the controls in a continuous action vector of
/// configuration `config`.
pub fn action_layout(config: ContinuousActionConfig) -> (l: ActionLayout)
    ensures
        l == spec_action_layout(config),
{
    match config {
        ContinuousActionConfig::Basic3D => ActionLayout { sprint: 2, jump: None, pitch: None, roll: None },
        ContinuousActionConfig::BasicWithJump4D => ActionLayout {
            sprint: 2,
            jump: Some(3),
            pitch: None,
            roll: None,
        },
        ContinuousActionConfig::Tilt5D => ActionLayout {
            sprint: 4,
            jump: None,
            pitch: Some(2),
            roll: Some(3),
        },
        ContinuousActionConfig::Full6D => ActionLayout {
            sprint: 5,
            jump: Some(2),
            pitch: Some(3),
            roll: Some(4),
        },
    }
}

/// Message for a continuous action with the wrong number of components.
pub open spec fn action_length_message(c: ContinuousActionConfig, len: nat) -> Seq<char> {
    "Expected "@ + decimal(spec_dimension(c)) + " components for "@ + spec_config_name(c) + ", got "@
        + decimal(len)
}

/// Check that a continuous action vector of length `len` fits `config`.
pub fn check_action_length(len: usize, config: ContinuousActionConfig) -> (r: Result<(), String>)
    ensures
        r is Ok <==> len == spec_dimension(config),
        r matches Err(m) ==> m@ == action_length_message(config, len as nat),
{
    let dim = config.dimension();
    if len != dim {
        let mut m = String::from_str("Expected ");
        push_decimal(&mut m, dim as u64);
        m.append(" components for ");
        m.append(config.name());
        m.append(", got ");
        push_decimal(&mut m, len as u64);
        return Err(m);
    }
    Ok(())
}

/// Every discrete action is found again from its index, and the indices
/// accepted by `RLAction::from_index` are exactly those of the five actions.
pub proof fn lemma_action_index_roundtrip(a: RLAction, i: nat)
    ensures
        spec_action_from_index(spec_action_index(a)) == Some(a),
        spec_action_from_index(i) matches Some(b) ==> spec_action_index(b) == i,
        spec_action_index(a) < 5,
{
}

/// Whether layout `l` assigns component `k` to sprint, jump, pitch or roll.
pub open spec fn layout_reads(l: ActionLayout, k: nat) -> bool {
    ||| k == l.sprint
    ||| l.jump == Some(k as usize)
    ||| l.pitch == Some(k as usize)
    ||| l.roll == Some(k as usize)
}

/// Whether the controls of layout `l` sit at distinct indices, none of them
/// at the velocity indices 0 and 1.
pub open spec fn layout_distinct(l: ActionLayout) -> bool {
    let s = Some(l.sprint);
    &&& l.sprint >= 2
    &&& l.jump matches Some(j) ==> j >= 2
    &&& l.pitch matches Some(p) ==> p >= 2
    &&& l.roll matches Some(q) ==> q >= 2
    &&& apart(s, l.jump) && apart(s, l.pitch) && apart(s, l.roll)
    &&& apart(l.jump, l.pitch) && apart(l.jump, l.roll) && apart(l.pitch, l.roll)
}

/// Two optional indices that are both present differ.
pub open spec fn apart(x: Option<usize>, y: Option<usize>) -> bool {
    x is Some && y is Some ==> x != y
}

/// Each component of a continuous action vector is read by exactly one
/// control, and the name reported for a component is the control that reads
/// it: vx and vy at 0 and 1, then sprint, jump, pitch and roll where the
/// layout puts them.
pub proof fn lemma_layout_matches_component_names(c: ContinuousActionConfig)
    ensures
        spec_component_names(c).len() == spec_dimension(c),
        spec_component_names(c)[0] == "vx"@,
        spec_component_names(c)[1] == "vy"@,
        spec_action_layout(c).sprint < spec_dimension(c),
        spec_component_names(c)[spec_action_layout(c).sprint as int] == "sprint"@,
        spec_action_layout(c).jump matches Some(j) ==> j < spec_dimension(c)
            && spec_component_names(c)[j as int] == "jump"@,
        spec_action_layout(c).pitch matches Some(p) ==> p < spec_dimension(c)
            && spec_component_names(c)[p as int] == "pitch"@,
        spec_action_layout(c).roll matches Some(q) ==> q < spec_dimension(c)
            && spec_component_names(c)[q as int] == "roll"@,
        layout_distinct(spec_action_layout(c)),
        forall|k: nat| 2 <= k < spec_dimension(c) ==> #[trigger] layout_reads(spec_action_layout(c), k),
{
}

} // verus!
