//! Validation of the integer and text parameters that clients send to the
//! HTTP and gRPC APIs.

use vstd::prelude::*;
use vstd::string::*;
use crate::config::{
    spec_continuous_from_lowercase, spec_observation_mode_from_lowercase, ContinuousActionConfig,
    ObservationMode,
};
use crate::environment::opt_view;
use crate::text::{decimal, lowercase, push_decimal, push_signed_decimal, signed_decimal, str_equals, to_lowercase};

verus! {

/// A rejected parameter, with a message for the client.
#[derive(Debug)]
pub struct ValidationError {
    pub message: String,
}

/// Result type for validation errors.
pub type ValidationResult<T> = Result<T, ValidationError>;

impl ValidationError {
    /// A validation error carrying `message`.
    pub fn new(message: String) -> (e: Self)
        ensures
            e.message@ == message@,
    {
        ValidationError { message }
    }
}

/// Message for a level outside 1..=2.
pub open spec fn level_message(level: int) -> Seq<char> {
    "Invalid level: "@ + signed_decimal(level) + ". Must be 1 or 2"@
}

/// Validate a level number (1 or 2).
pub fn validate_level(level: i32) -> (r: ValidationResult<()>)
    ensures
        r is Ok <==> 1 <= level <= 2,
        r matches Err(e) ==> e.message@ == level_message(level as int),
{
    if level < 1 || level > 2 {
        let mut m = String::from_str("Invalid level: ");
        push_signed_decimal(&mut m, level as i64);
        m.append(". Must be 1 or 2");
        return Err(ValidationError::new(m));
    }
    Ok(())
}

/// Whether `s` names an action space: "discrete" or a continuous variant,
/// in any letter case.
pub open spec fn is_action_space_name(s: Seq<char>) -> bool {
    lowercase(s) == "discrete"@ || spec_continuous_from_lowercase(lowercase(lowercase(s))) is Some
}

/// Message for an unknown action space name.
pub open spec fn action_space_message(s: Seq<char>) -> Seq<char> {
    "Invalid action_space_type: '"@ + s + "'. Must be 'discrete' or a continuous variant"@
}

/// Validate an action space type name.
pub fn validate_action_space_type(action_space_type: &str) -> (r: ValidationResult<()>)
    ensures
        r is Ok <==> is_action_space_name(action_space_type@),
        r matches Err(e) ==> e.message@ == action_space_message(action_space_type@),
{
    let lower = to_lowercase(action_space_type);
    if !str_equals(lower.as_str(), "discrete") && ContinuousActionConfig::from_str(lower.as_str()).is_none() {
        let mut m = String::from_str("Invalid action_space_type: '");
        m.append(action_space_type);
        m.append("'. Must be 'discrete' or a continuous variant");
        return Err(ValidationError::new(m));
    }
    Ok(())
}

/// Message for an unknown observation mode name.
pub open spec fn observation_mode_message(s: Seq<char>) -> Seq<char> {
    "Invalid observation_mode: '"@ + s + "'. Must be 'standard', 'with_thrower', or 'topdown'"@
}

/// Validate an observation mode name.
pub fn validate_observation_mode(obs_mode: &str) -> (r: ValidationResult<()>)
    ensures
        r is Ok <==> spec_observation_mode_from_lowercase(lowercase(obs_mode@)) is Some,
        r matches Err(e) ==> e.message@ == observation_mode_message(obs_mode@),
{
    if ObservationMode::from_str(obs_mode).is_none() {
        let mut m = String::from_str("Invalid observation_mode: '");
        m.append(obs_mode);
        m.append("'. Must be 'standard', 'with_thrower', or 'topdown'");
        return Err(ValidationError::new(m));
    }
    Ok(())
}

/// Message for an image dimension outside 32..=512.
pub open spec fn image_dimension_message(name: Seq<char>, dim: nat) -> Seq<char> {
    "Invalid "@ + name + ": "@ + decimal(dim) + ". Must be between 32 and 512"@
}

/// Validate an image dimension (32 <= dim <= 512); `name` names the parameter.
pub fn validate_image_dimension(dim: u32, name: &str) -> (r: ValidationResult<()>)
    ensures
        r is Ok <==> 32 <= dim <= 512,
        r matches Err(e) ==> e.message@ == image_dimension_message(name@, dim as nat),
{
    if dim < 32 || dim > 512 {
        let mut m = String::from_str("Invalid ");
        m.append(name);
        m.append(": ");
        push_decimal(&mut m, dim as u64);
        m.append(". Must be between 32 and 512");
        return Err(ValidationError::new(m));
    }
    Ok(())
}

/// Message for a projectile limit outside 1..=1000.
pub open spec fn max_projectiles_message(max: nat) -> Seq<char> {
    "Invalid max_projectiles: "@ + decimal(max) + ". Must be between 1 and 1000"@
}

/// Validate the maximum number of projectiles (1 <= max <= 1000).
pub fn validate_max_projectiles(max: u32) -> (r: ValidationResult<()>)
    ensures
        r is Ok <==> 1 <= max <= 1000,
        r matches Err(e) ==> e.message@ == max_projectiles_message(max as nat),
{
    if max == 0 || max > 1000 {
        let mut m = String::from_str("Invalid max_projectiles: ");
        push_decimal(&mut m, max as u64);
        m.append(". Must be between 1 and 1000");
        return Err(ValidationError::new(m));
    }
    Ok(())
}

/// The message of a failed check, or `None` where it passed.
pub open spec fn check_message(r: ValidationResult<()>) -> Option<Seq<char>> {
    match r {
        Ok(()) => None,
        Err(e) => Some(e.message@),
    }
}

/// The first failing check of a configure request, in the order in which the
/// servers check its fields, or `None` where every given field is valid. The
/// real-valued fields (spawn angle, sprint multiplier, thrower delay) enter as
/// the results of their own checks.
pub open spec fn first_configure_error(
    level: Option<i32>,
    action_space_type: Option<Seq<char>>,
    spawn_angle: Option<Seq<char>>,
    sprint_multiplier: Option<Seq<char>>,
    observation_mode: Option<Seq<char>>,
    thrower_delay: Option<Seq<char>>,
    image_obs_width: Option<u32>,
    image_obs_height: Option<u32>,
) -> Option<Seq<char>> {
    if level is Some && !(1 <= level->0 <= 2) {
        Some(level_message(level->0 as int))
    } else if action_space_type is Some && !is_action_space_name(action_space_type->0) {
        Some(action_space_message(action_space_type->0))
    } else if spawn_angle is Some {
        spawn_angle
    } else if sprint_multiplier is Some {
        sprint_multiplier
    } else if observation_mode is Some && spec_observation_mode_from_lowercase(lowercase(observation_mode->0)) is None {
        Some(observation_mode_message(observation_mode->0))
    } else if thrower_delay is Some {
        thrower_delay
    } else if image_obs_width is Some && !(32 <= image_obs_width->0 <= 512) {
        Some(image_dimension_message("image_obs_width"@, image_obs_width->0 as nat))
    } else if image_obs_height is Some && !(32 <= image_obs_height->0 <= 512) {
        Some(image_dimension_message("image_obs_height"@, image_obs_height->0 as nat))
    } else {
        None
    }
}

/// Validate a configure request: each given field in turn, the first failure
/// being the answer. `spawn_angle_check`, `sprint_multiplier_check` and
/// `thrower_delay_check` are the results of checking the real-valued fields
/// (`Ok` where a field is absent).
pub fn validate_configure(
    level: Option<i32>,
    action_space_type: Option<&str>,
    spawn_angle_check: ValidationResult<()>,
    sprint_multiplier_check: ValidationResult<()>,
    observation_mode: Option<&str>,
    thrower_delay_check: ValidationResult<()>,
    image_obs_width: Option<u32>,
    image_obs_height: Option<u32>,
) -> (r: ValidationResult<()>)
    ensures
        check_message(r) == first_configure_error(
            level,
            opt_view(action_space_type),
            check_message(spawn_angle_check),
            check_message(sprint_multiplier_check),
            opt_view(observation_mode),
            check_message(thrower_delay_check),
            image_obs_width,
            image_obs_height,
        ),
{
    if let Some(l) = level {
        if let Err(e) = validate_level(l) {
            return Err(e);
        }
    }
    if let Some(s) = action_space_type {
        if let Err(e) = validate_action_space_type(s) {
            return Err(e);
        }
    }
    if let Err(e) = spawn_angle_check {
        return Err(e);
    }
    if let Err(e) = sprint_multiplier_check {
        return Err(e);
    }
    if let Some(s) = observation_mode {
        if let Err(e) = validate_observation_mode(s) {
            return Err(e);
        }
    }
    if let Err(e) = thrower_delay_check {
        return Err(e);
    }
    if let Some(w) = image_obs_width {
        proof { reveal_strlit("image_obs_width"); }
        if let Err(e) = validate_image_dimension(w, "image_obs_width") {
            return Err(e);
        }
    }
    if let Some(h) = image_obs_height {
        proof { reveal_strlit("image_obs_height"); }
        if let Err(e) = validate_image_dimension(h, "image_obs_height") {
            return Err(e);
        }
    }
    Ok(())
}

} // verus!
