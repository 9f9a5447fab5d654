//! Errors reported by validation and by the two transports.
use vstd::prelude::*;

verus! {

/// The input that an error is about.
#[derive(Clone, Copy, Debug, PartialEq, Eq, Structural)]
pub enum Field {
    Node0,
    Node1,
    Environment,
    Size,
    Goal,
    Obstacles,
    ObstaclePosition,
    ObstacleDimensions,
    SearchRadius,
    SamplePoints,
}

impl Field {
    /// The name of the input.
    pub open spec fn spec_name(self) -> Seq<char> {
        match self {
            Field::Node0 => "node0"@,
            Field::Node1 => "node1"@,
            Field::Environment => "environment"@,
            Field::Size => "size"@,
            Field::Goal => "goal"@,
            Field::Obstacles => "obstacles"@,
            Field::ObstaclePosition => "position"@,
            Field::ObstacleDimensions => "dimensions"@,
            Field::SearchRadius => "search_radius"@,
            Field::SamplePoints => "sample_points"@,
        }
    }

    /// The name under which the input is known on the command line and in
    /// the request payload.
    pub fn name(&self) -> (r: &'static str)
        ensures
            r@ == self.spec_name(),
    {
        match self {
            Field::Node0 => "node0",
            Field::Node1 => "node1",
            Field::Environment => "environment",
            Field::Size => "size",
            Field::Goal => "goal",
            Field::Obstacles => "obstacles",
            Field::ObstaclePosition => "position",
            Field::ObstacleDimensions => "dimensions",
            Field::SearchRadius => "search_radius",
            Field::SamplePoints => "sample_points",
        }
    }
}

/// Why a request could not be carried out.
#[derive(Debug, PartialEq, Eq)]
pub enum LimitError {
    /// The text of an input is not what it must be.
    Parse { field: Field },
    /// A vector has another length than the environment. For an obstacle,
    /// `obstacle` holds its index and `field` says which of its two vectors.
    DimensionMismatch { field: Field, obstacle: Option<usize>, actual: usize, expected: usize },
    /// A scalar parameter is out of range; `value` is its text.
    InvalidParameter { field: Field, value: String },
    /// The remote service could not be reached, answered with a status other
    /// than success, or answered with a body that is not JSON.
    Network { status: Option<u16>, body: String },
    /// The companion executable could not be launched.
    ExecutableNotFound { path: String },
    /// The companion executable exited with failure; holds its error output.
    Subprocess { stderr: String },
}

/// What an error says, with its texts as sequences of characters.
pub enum Failure {
    Parse { field: Field },
    DimensionMismatch { field: Field, obstacle: Option<nat>, actual: nat, expected: nat },
    InvalidParameter { field: Field, value: Seq<char> },
    Network { status: Option<u16>, body: Seq<char> },
    ExecutableNotFound { path: Seq<char> },
    Subprocess { stderr: Seq<char> },
}

impl View for LimitError {
    type V = Failure;

    open spec fn view(&self) -> Failure {
        match self {
            LimitError::Parse { field } => Failure::Parse { field: *field },
            LimitError::DimensionMismatch { field, obstacle, actual, expected } => Failure::DimensionMismatch {
                field: *field,
                obstacle: match obstacle {
                    Some(i) => Some(*i as nat),
                    None => None,
                },
                actual: *actual as nat,
                expected: *expected as nat,
            },
            LimitError::InvalidParameter { field, value } => Failure::InvalidParameter { field: *field, value: value@ },
            LimitError::Network { status, body } => Failure::Network { status: *status, body: body@ },
            LimitError::ExecutableNotFound { path } => Failure::ExecutableNotFound { path: path@ },
            LimitError::Subprocess { stderr } => Failure::Subprocess { stderr: stderr@ },
        }
    }
}

} // verus!
