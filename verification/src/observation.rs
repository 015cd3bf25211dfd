//! Layout of the observation vector handed to the agent. The values
//! themselves are positions and velocities measured by the game; this module
//! places them, whatever their type, and pads the empty slots.

use vstd::prelude::*;
use crate::config::ObservationMode;

verus! {

/// Maximum number of projectiles included in an observation; fewer
/// projectiles leave zero-padded slots.
pub const MAX_PROJECTILES: usize = 10;

/// Size of the standard observation: player position (3) and velocity (2),
/// then 10 projectiles of position (3) and velocity (3): 65 values.
pub const OBSERVATION_SIZE: usize = 5 + MAX_PROJECTILES * 6;

/// Size of the extended observation: the standard 65 values, the thrower
/// position (3) and the normalized time until the throw (1): 69 values.
pub const OBSERVATION_SIZE_EXTENDED: usize = OBSERVATION_SIZE + 4;

/// The five player values, or zeros when there is no player.
pub open spec fn player_part<T>(player: Option<[T; 5]>, zero: T) -> Seq<T> {
    match player {
        Some(p) => p@,
        None => seq![zero, zero, zero, zero, zero],
    }
}

/// Projectile slot `k`: the six values of projectile `k`, or zeros.
pub open spec fn projectile_slot<T>(projectiles: Seq<[T; 6]>, zero: T, k: int) -> Seq<T> {
    if 0 <= k < projectiles.len() {
        projectiles[k]@
    } else {
        seq![zero, zero, zero, zero, zero, zero]
    }
}

/// The first `n` projectile slots, one after the other.
pub open spec fn projectile_slots<T>(projectiles: Seq<[T; 6]>, zero: T, n: nat) -> Seq<T>
    decreases n,
{
    if n == 0 {
        Seq::empty()
    } else {
        projectile_slots(projectiles, zero, (n - 1) as nat) + projectile_slot(projectiles, zero, n - 1)
    }
}

/// The standard observation: player values, then ten projectile slots.
pub open spec fn standard_observation<T>(player: Option<[T; 5]>, projectiles: Seq<[T; 6]>, zero: T) -> Seq<T> {
    player_part(player, zero) + projectile_slots(projectiles, zero, MAX_PROJECTILES as nat)
}

/// The four thrower values, or zeros when no thrower indicator exists.
pub open spec fn thrower_part<T>(thrower: Option<[T; 4]>, zero: T) -> Seq<T> {
    match thrower {
        Some(t) => t@,
        None => seq![zero, zero, zero, zero],
    }
}

/// The observation in mode `mode`.
pub open spec fn observation_for_mode<T>(
    mode: ObservationMode,
    player: Option<[T; 5]>,
    projectiles: Seq<[T; 6]>,
    thrower: Option<[T; 4]>,
    zero: T,
) -> Seq<T> {
    match mode {
        ObservationMode::Standard => standard_observation(player, projectiles, zero),
        ObservationMode::TopDownImage => Seq::empty(),
        ObservationMode::WithThrowerIndicator => standard_observation(player, projectiles, zero)
            + thrower_part(thrower, zero),
    }
}

/// The standard observation vector. `player` holds the player position
/// (x, y, z) and velocity (x, y); each entry of `projectiles` holds a
/// projectile position (x, y, z) and velocity (x, y, z), in the order the
/// game lists them; only the first ten are used; `zero` fills empty slots.
pub fn extract_observation<T: Copy>(player: Option<[T; 5]>, projectiles: &[[T; 6]], zero: T) -> (obs: Vec<T>)
    ensures
        obs@ == standard_observation(player, projectiles@, zero),
        obs@.len() == OBSERVATION_SIZE,
{
    let mut obs: Vec<T> = Vec::new();
    match player {
        Some(p) => {
            let mut i: usize = 0;
            while i < 5
                invariant
                    i <= 5,
                    obs@ == p@.subrange(0, i as int),
                decreases 5 - i,
            {
                obs.push(p[i]);
                i = i + 1;
                assert(obs@ =~= p@.subrange(0, i as int));
            }
            assert(p@.subrange(0, 5) =~= p@);
        },
        None => {
            obs.push(zero);
            obs.push(zero);
            obs.push(zero);
            obs.push(zero);
            obs.push(zero);
        },
    }
    assert(obs@ =~= player_part(player, zero));
    let n = projectiles.len();
    let mut k: usize = 0;
    while k < MAX_PROJECTILES
        invariant
            k <= MAX_PROJECTILES,
            n == projectiles@.len(),
            obs@ == player_part(player, zero) + projectile_slots(projectiles@, zero, k as nat),
        decreases MAX_PROJECTILES - k,
    {
        let ghost before = obs@;
        if k < n {
            let q = projectiles[k];
            let mut c: usize = 0;
            while c < 6
                invariant
                    c <= 6,
                    q@ == projectiles@[k as int]@,
                    obs@ == before + q@.subrange(0, c as int),
                decreases 6 - c,
            {
                obs.push(q[c]);
                c = c + 1;
                assert(obs@ =~= before + q@.subrange(0, c as int));
            }
            assert(q@.subrange(0, 6) =~= q@);
        } else {
            obs.push(zero);
            obs.push(zero);
            obs.push(zero);
            obs.push(zero);
            obs.push(zero);
            obs.push(zero);
        }
        assert(obs@ =~= player_part(player, zero) + projectile_slots(projectiles@, zero, (k + 1) as nat));
        k = k + 1;
    }
    proof {
        lemma_slots_len(projectiles@, zero, MAX_PROJECTILES as nat);
    }
    obs
}

/// The observation vector for an observation mode: the standard vector, an
/// empty vector for the image mode (images are sent separately), or the
/// standard vector followed by the thrower indicator's position (x, y, z)
/// and its normalized time until the throw.
pub fn extract_observation_with_mode<T: Copy>(
    observation_mode: ObservationMode,
    player: Option<[T; 5]>,
    projectiles: &[[T; 6]],
    thrower: Option<[T; 4]>,
    zero: T,
) -> (obs: Vec<T>)
    ensures
        obs@ == observation_for_mode(observation_mode, player, projectiles@, thrower, zero),
        obs@.len() == (match observation_mode {
            ObservationMode::Standard => OBSERVATION_SIZE,
            ObservationMode::WithThrowerIndicator => OBSERVATION_SIZE_EXTENDED,
            ObservationMode::TopDownImage => 0,
        }),
{
    match observation_mode {
        ObservationMode::Standard => extract_observation(player, projectiles, zero),
        ObservationMode::TopDownImage => Vec::new(),
        ObservationMode::WithThrowerIndicator => {
            let mut obs = extract_observation(player, projectiles, zero);
            let ghost base = obs@;
            match thrower {
                Some(t) => {
                    obs.push(t[0]);
                    obs.push(t[1]);
                    obs.push(t[2]);
                    obs.push(t[3]);
                    assert(obs@ =~= base + t@);
                },
                None => {
                    obs.push(zero);
                    obs.push(zero);
                    obs.push(zero);
                    obs.push(zero);
                    assert(obs@ =~= base + seq![zero, zero, zero, zero]);
                },
            }
            obs
        },
    }
}

/// The first `n` projectile slots hold six values each.
pub proof fn lemma_slots_len<T>(projectiles: Seq<[T; 6]>, zero: T, n: nat)
    ensures
        projectile_slots(projectiles, zero, n).len() == 6 * n,
    decreases n,
{
    if n > 0 {
        lemma_slots_len(projectiles, zero, (n - 1) as nat);
    }
}

/// Value `c` of projectile slot `k` sits at index `6 * k + c` of the slots.
pub proof fn lemma_slots_index<T>(projectiles: Seq<[T; 6]>, zero: T, n: nat, k: int, c: int)
    requires
        0 <= k < n,
        0 <= c < 6,
    ensures
        projectile_slots(projectiles, zero, n)[6 * k + c] == projectile_slot(projectiles, zero, k)[c],
    decreases n,
{
    lemma_slots_len(projectiles, zero, (n - 1) as nat);
    if k < n - 1 {
        lemma_slots_index(projectiles, zero, (n - 1) as nat, k, c);
    }
}

} // verus!
