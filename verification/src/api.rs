//! What the HTTP and gRPC servers answer from the current configuration:
//! observation and action space descriptions, the image observation payload,
//! and the checks on the actions that clients send.

use vstd::prelude::*;
use vstd::string::*;
use base64::Engine;
use crate::config::{
    spec_config_name, spec_dimension, spec_image_channels, spec_observation_size, ActionSpaceType,
    ContinuousActionConfig, GameConfig, ObservationMode,
};
use crate::text::{decimal, push_decimal, push_signed_decimal, signed_decimal};

verus! {

/// The base64 text (standard alphabet, with padding) that
/// `base64::engine::general_purpose::STANDARD` produces for `bytes`.
pub uninterp spec fn base64_standard(bytes: Seq<u8>) -> Seq<char>;

/// Calls `Engine::encode_string` of `base64::engine::general_purpose::STANDARD`
/// on an empty string. Claimed: the result is `base64_standard(bytes@)`, a
/// function of the bytes alone; its text is not stated here.
#[verifier::external_body]
fn base64_encode(bytes: &[u8]) -> (s: String)
    ensures
        s@ == base64_standard(bytes@),
{
    let mut out = String::new();
    base64::engine::general_purpose::STANDARD.encode_string(bytes, &mut out);
    out
}

/// Shape of the observation space: (height, width, channels) for images,
/// otherwise the length of the observation vector.
pub open spec fn spec_observation_shape(config: GameConfig) -> Seq<usize> {
    if config.observation_mode == ObservationMode::TopDownImage {
        seq![
            config.image_obs_height as usize,
            config.image_obs_width as usize,
            spec_image_channels(config.image_grayscale) as usize,
        ]
    } else {
        seq![spec_observation_size(config.observation_mode) as usize]
    }
}

/// The shape of the observation space in the current configuration.
pub fn observation_space_shape(config: &GameConfig) -> (shape: Vec<usize>)
    ensures
        shape@ == spec_observation_shape(*config),
{
    if config.observation_mode.is_image_mode() {
        let v = vec![
            config.image_obs_height as usize,
            config.image_obs_width as usize,
            config.image_channels() as usize,
        ];
        assert(v@ =~= spec_observation_shape(*config));
        v
    } else {
        let v = vec![config.observation_mode.observation_size()];
        assert(v@ =~= spec_observation_shape(*config));
        v
    }
}

/// The element type of observations: "uint8" for images, "float32" for vectors.
pub fn observation_dtype(config: &GameConfig) -> (s: &'static str)
    ensures
        s@ == (if config.observation_mode == ObservationMode::TopDownImage {
            "uint8"@
        } else {
            "float32"@
        }),
{
    if config.observation_mode.is_image_mode() {
        "uint8"
    } else {
        "float32"
    }
}

/// Description of an action space: `Discrete` with `n` actions, or a box of
/// the given shape (its bounds are -1 and 1).
#[derive(Debug, Clone, PartialEq, Eq)]
pub enum ActionSpaceSpec {
    Discrete { n: usize },
    Box { shape: Vec<usize> },
}

/// The action space description of the current configuration.
pub fn action_space_spec(action_space_type: ActionSpaceType) -> (a: ActionSpaceSpec)
    ensures
        match action_space_type {
            ActionSpaceType::Discrete => a == ActionSpaceSpec::Discrete { n: 5 },
            ActionSpaceType::Continuous(c) => (a matches ActionSpaceSpec::Box { shape } && shape@ == seq![
                spec_dimension(c) as usize,
            ]),
        },
{
    match action_space_type {
        ActionSpaceType::Discrete => ActionSpaceSpec::Discrete { n: 5 },
        ActionSpaceType::Continuous(c) => {
            let shape = vec![c.dimension()];
            assert(shape@ =~= seq![spec_dimension(c) as usize]);
            ActionSpaceSpec::Box { shape }
        },
    }
}

/// Number of bytes of an image observation in configuration `config`.
pub open spec fn spec_image_len(config: GameConfig) -> int {
    config.image_obs_width * config.image_obs_height * spec_image_channels(config.image_grayscale)
}

/// Number of bytes of an image observation: width * height * channels.
pub fn image_observation_len(config: &GameConfig) -> (n: usize)
    requires
        spec_image_len(*config) <= u32::MAX,
    ensures
        n == spec_image_len(*config),
{
    (config.image_obs_width * config.image_obs_height * config.image_channels()) as usize
}

/// Number of bytes of an image observation, or `None` where width * height *
/// channels exceeds the 32-bit range in which it is computed.
pub fn checked_image_observation_len(config: &GameConfig) -> (r: Option<usize>)
    ensures
        r == (if spec_image_len(*config) <= u32::MAX {
            Some(spec_image_len(*config) as usize)
        } else {
            None::<usize>
        }),
{
    match config.image_obs_width.checked_mul(config.image_obs_height) {
        Some(area) => match area.checked_mul(config.image_channels()) {
            Some(n) => Some(n as usize),
            None => None,
        },
        None => {
            proof {
                assert(config.image_obs_width * config.image_obs_height <= spec_image_len(*config)) by (nonlinear_arith)
                    requires
                        spec_image_len(*config) == config.image_obs_width * config.image_obs_height
                            * spec_image_channels(config.image_grayscale),
                        spec_image_channels(config.image_grayscale) >= 1,
                        config.image_obs_width * config.image_obs_height >= 0,
                ;
            }
            None
        },
    }
}

/// The image observation sent over HTTP: in the image mode, the first
/// `image_observation_len` bytes of the image buffer in base64; otherwise none.
pub fn encode_image_observation(config: &GameConfig, image_buffer: &[u8]) -> (r: Option<String>)
    requires
        config.observation_mode == ObservationMode::TopDownImage ==> spec_image_len(*config) <= u32::MAX
            && spec_image_len(*config) <= image_buffer@.len(),
    ensures
        config.observation_mode == ObservationMode::TopDownImage ==> (r matches Some(s) && s@ == base64_standard(
            image_buffer@.subrange(0, spec_image_len(*config)),
        )),
        config.observation_mode != ObservationMode::TopDownImage ==> r is None,
{
    if config.observation_mode == ObservationMode::TopDownImage {
        let n = image_observation_len(config);
        let bytes = &image_buffer[0..n];
        Some(base64_encode(bytes))
    } else {
        None
    }
}

/// The image observation sent over gRPC: in the image mode, the first
/// `image_observation_len` bytes of the image buffer; otherwise no bytes.
pub fn image_observation_bytes(config: &GameConfig, image_buffer: &[u8]) -> (r: Vec<u8>)
    requires
        config.observation_mode == ObservationMode::TopDownImage ==> spec_image_len(*config) <= u32::MAX
            && spec_image_len(*config) <= image_buffer@.len(),
    ensures
        r@ == (if config.observation_mode == ObservationMode::TopDownImage {
            image_buffer@.subrange(0, spec_image_len(*config))
        } else {
            Seq::empty()
        }),
{
    if config.observation_mode == ObservationMode::TopDownImage {
        let n = image_observation_len(config);
        vstd::slice::slice_to_vec(&image_buffer[0..n])
    } else {
        Vec::new()
    }
}

/// Message for a discrete action outside 0..5.
pub open spec fn discrete_action_message(action: int) -> Seq<char> {
    "Invalid action: "@ + signed_decimal(action) + ". Must be in range [0, 5)"@
}

/// Check the integer action of an HTTP step request for the discrete space.
pub fn validate_discrete_action(action: u64) -> (r: Result<usize, String>)
    ensures
        r is Ok <==> action < 5,
        r matches Ok(a) ==> a == action,
        r matches Err(m) ==> m@ == discrete_action_message(action as int),
{
    if action >= 5 {
        let mut m = String::from_str("Invalid action: ");
        push_decimal(&mut m, action);
        m.append(". Must be in range [0, 5)");
        return Err(m);
    }
    Ok(action as usize)
}

/// Check the integer action of a gRPC step request.
pub fn validate_grpc_discrete_action(action: i32) -> (r: Result<usize, String>)
    ensures
        r is Ok <==> 0 <= action < 5,
        r matches Ok(a) ==> a == action,
        r matches Err(m) ==> m@ == discrete_action_message(action as int),
{
    if action < 0 || action >= 5 {
        let mut m = String::from_str("Invalid action: ");
        push_signed_decimal(&mut m, action as i64);
        m.append(". Must be in range [0, 5)");
        return Err(m);
    }
    Ok(action as usize)
}

/// Message for an HTTP continuous action with the wrong number of components.
pub open spec fn continuous_length_message(c: ContinuousActionConfig, len: nat) -> Seq<char> {
    "Continuous action must have "@ + decimal(spec_dimension(c)) + " components for "@ + spec_config_name(c)
        + ", got "@ + decimal(len)
}

/// Check the number of components of an HTTP continuous step request.
pub fn validate_continuous_length(len: usize, config: ContinuousActionConfig) -> (r: Result<(), String>)
    ensures
        r is Ok <==> len == spec_dimension(config),
        r matches Err(m) ==> m@ == continuous_length_message(config, len as nat),
{
    let dim = config.dimension();
    if len != dim {
        let mut m = String::from_str("Continuous action must have ");
        push_decimal(&mut m, dim as u64);
        m.append(" components for ");
        m.append(config.name());
        m.append(", got ");
        push_decimal(&mut m, len as u64);
        return Err(m);
    }
    Ok(())
}

/// The action of a step request after the checks that need no real
/// arithmetic: a discrete action index, or the continuous configuration whose
/// number of components the action matched (the caller, who holds the
/// component values, checks their range).
#[derive(Debug, Clone, Copy, PartialEq, Eq, Structural)]
pub enum StepAction {
    Discrete(usize),
    Continuous(ContinuousActionConfig),
}

/// A result whose error message is taken by its characters.
pub open spec fn message_view<T>(r: Result<T, String>) -> Result<T, Seq<char>> {
    match r {
        Ok(a) => Ok(a),
        Err(m) => Err(m@),
    }
}

/// What an HTTP step request's action is checked to: `as_integer` is the
/// action read as an unsigned integer where it is one, `array_len` the number
/// of its elements where it is an array.
pub open spec fn spec_check_step_action(
    space: ActionSpaceType,
    as_integer: Option<u64>,
    array_len: Option<usize>,
) -> Result<StepAction, Seq<char>> {
    match space {
        ActionSpaceType::Discrete => match as_integer {
            None => Err("Action must be an integer for discrete action space"@),
            Some(a) => if a < 5 {
                Ok(StepAction::Discrete(a as usize))
            } else {
                Err(discrete_action_message(a as int))
            },
        },
        ActionSpaceType::Continuous(c) => match array_len {
            None => Err("Action must be an array for continuous action space"@),
            Some(n) => if n == spec_dimension(c) {
                Ok(StepAction::Continuous(c))
            } else {
                Err(continuous_length_message(c, n as nat))
            },
        },
    }
}

/// Check the action of an HTTP step request against the current action space.
pub fn check_step_action(space: ActionSpaceType, as_integer: Option<u64>, array_len: Option<usize>) -> (r: Result<
    StepAction,
    String,
>)
    ensures
        message_view(r) == spec_check_step_action(space, as_integer, array_len),
{
    match space {
        ActionSpaceType::Discrete => match as_integer {
            None => {
                let m = String::from_str("Action must be an integer for discrete action space");
                proof { reveal_strlit("Action must be an integer for discrete action space"); }
                Err(m)
            },
            Some(a) => match validate_discrete_action(a) {
                Ok(i) => Ok(StepAction::Discrete(i)),
                Err(m) => Err(m),
            },
        },
        ActionSpaceType::Continuous(c) => match array_len {
            None => {
                let m = String::from_str("Action must be an array for continuous action space");
                proof { reveal_strlit("Action must be an array for continuous action space"); }
                Err(m)
            },
            Some(n) => match validate_continuous_length(n, c) {
                Ok(()) => Ok(StepAction::Continuous(c)),
                Err(m) => Err(m),
            },
        },
    }
}

/// The action of a gRPC step request: a discrete index, or a continuous
/// action given by its number of values.
#[derive(Debug, Clone, Copy, PartialEq, Eq, Structural)]
pub enum GrpcAction {
    Discrete(i32),
    Continuous(usize),
}

/// Message for a gRPC continuous action with the wrong number of components.
pub open spec fn grpc_continuous_length_message(c: ContinuousActionConfig, len: nat) -> Seq<char> {
    "Continuous action must have "@ + decimal(spec_dimension(c)) + " components, got "@ + decimal(len)
}

/// What a gRPC step request's action is checked to. A discrete action is
/// taken whatever the action space is.
pub open spec fn spec_check_grpc_step_action(space: ActionSpaceType, action: Option<GrpcAction>) -> Result<
    StepAction,
    Seq<char>,
> {
    match action {
        None => Err("No action provided"@),
        Some(GrpcAction::Discrete(a)) => if 0 <= a < 5 {
            Ok(StepAction::Discrete(a as usize))
        } else {
            Err(discrete_action_message(a as int))
        },
        Some(GrpcAction::Continuous(n)) => match space {
            ActionSpaceType::Discrete => Err("Received continuous action but action space is discrete"@),
            ActionSpaceType::Continuous(c) => if n == spec_dimension(c) {
                Ok(StepAction::Continuous(c))
            } else {
                Err(grpc_continuous_length_message(c, n as nat))
            },
        },
    }
}

/// Check the action of a gRPC step request against the current action space.
pub fn check_grpc_step_action(space: ActionSpaceType, action: Option<GrpcAction>) -> (r: Result<StepAction, String>)
    ensures
        message_view(r) == spec_check_grpc_step_action(space, action),
{
    match action {
        None => {
            let m = String::from_str("No action provided");
            proof { reveal_strlit("No action provided"); }
            Err(m)
        },
        Some(GrpcAction::Discrete(a)) => match validate_grpc_discrete_action(a) {
            Ok(i) => Ok(StepAction::Discrete(i)),
            Err(m) => Err(m),
        },
        Some(GrpcAction::Continuous(n)) => match space {
            ActionSpaceType::Discrete => {
                let m = String::from_str("Received continuous action but action space is discrete");
                proof { reveal_strlit("Received continuous action but action space is discrete"); }
                Err(m)
            },
            ActionSpaceType::Continuous(c) => {
                let dim = c.dimension();
                if n != dim {
                    let mut m = String::from_str("Continuous action must have ");
                    push_decimal(&mut m, dim as u64);
                    m.append(" components, got ");
                    push_decimal(&mut m, n as u64);
                    return Err(m);
                }
                Ok(StepAction::Continuous(c))
            },
        },
    }
}

} // verus!
