//! Errors of the network layer, each a kind with a free-form message.

use vstd::prelude::*;
use vstd::std_specs::convert::FromSpecImpl;
use vstd::string::StringExecFns;

verus! {

/// Error of a neural network operation.
#[derive(Debug)]
pub enum NeuralError {
    /// Invalid architecture
    InvalidArchitecture(String),
    /// Training error
    TrainingError(String),
    /// Inference error
    InferenceError(String),
    /// Serialization error
    SerializationError(String),
    /// Deserialization error
    DeserializationError(String),
    /// Validation error
    ValidationError(String),
    /// Not implemented error
    NotImplementedError(String),
    /// IO error
    IOError(String),
    /// Invalid argument error
    InvalidArgument(String),
    /// Shape mismatch error
    ShapeMismatch(String),
    /// Computation error
    ComputationError(String),
    /// Dimension mismatch error
    DimensionMismatch(String),
    /// Distributed training error
    DistributedError(String),
    /// Other error
    Other(String),
}

/// Stand-in for a GPU backend where none is built in.
pub struct DummyGpuBackend;

/// What precedes the text of a shape failure inside an inference error.
pub open spec fn shape_prefix() -> Seq<char> {
    "Shape error: "@
}

impl NeuralError {
    /// The message that the error carries.
    pub open spec fn detail(&self) -> Seq<char> {
        match self {
            NeuralError::InvalidArchitecture(m) => m@,
            NeuralError::TrainingError(m) => m@,
            NeuralError::InferenceError(m) => m@,
            NeuralError::SerializationError(m) => m@,
            NeuralError::DeserializationError(m) => m@,
            NeuralError::ValidationError(m) => m@,
            NeuralError::NotImplementedError(m) => m@,
            NeuralError::IOError(m) => m@,
            NeuralError::InvalidArgument(m) => m@,
            NeuralError::ShapeMismatch(m) => m@,
            NeuralError::ComputationError(m) => m@,
            NeuralError::DimensionMismatch(m) => m@,
            NeuralError::DistributedError(m) => m@,
            NeuralError::Other(m) => m@,
        }
    }

    /// The words that introduce the message when the error is shown.
    pub open spec fn label(&self) -> Seq<char> {
        match self {
            NeuralError::InvalidArchitecture(_) => "Invalid architecture: "@,
            NeuralError::TrainingError(_) => "Training error: "@,
            NeuralError::InferenceError(_) => "Inference error: "@,
            NeuralError::SerializationError(_) => "Serialization error: "@,
            NeuralError::DeserializationError(_) => "Deserialization error: "@,
            NeuralError::ValidationError(_) => "Validation error: "@,
            NeuralError::NotImplementedError(_) => "Not implemented: "@,
            NeuralError::IOError(_) => "IO error: "@,
            NeuralError::InvalidArgument(_) => "Invalid argument: "@,
            NeuralError::ShapeMismatch(_) => "Shape mismatch: "@,
            NeuralError::ComputationError(_) => "Computation error: "@,
            NeuralError::DimensionMismatch(_) => "Dimension mismatch: "@,
            NeuralError::DistributedError(_) => "Distributed training error: "@,
            NeuralError::Other(_) => "Error: "@,
        }
    }

    /// The error as shown to a reader: its label, then its message.
    pub fn to_string(&self) -> (text: String)
        ensures
            text@ == self.label() + self.detail(),
    {
        match self {
            NeuralError::InvalidArchitecture(m) => String::from_str("Invalid architecture: ").concat(
                m.as_str(),
            ),
            NeuralError::TrainingError(m) => String::from_str("Training error: ").concat(m.as_str()),
            NeuralError::InferenceError(m) => String::from_str("Inference error: ").concat(
                m.as_str(),
            ),
            NeuralError::SerializationError(m) => String::from_str("Serialization error: ").concat(
                m.as_str(),
            ),
            NeuralError::DeserializationError(m) => String::from_str(
                "Deserialization error: ",
            ).concat(m.as_str()),
            NeuralError::ValidationError(m) => String::from_str("Validation error: ").concat(
                m.as_str(),
            ),
            NeuralError::NotImplementedError(m) => String::from_str("Not implemented: ").concat(
                m.as_str(),
            ),
            NeuralError::IOError(m) => String::from_str("IO error: ").concat(m.as_str()),
            NeuralError::InvalidArgument(m) => String::from_str("Invalid argument: ").concat(
                m.as_str(),
            ),
            NeuralError::ShapeMismatch(m) => String::from_str("Shape mismatch: ").concat(m.as_str()),
            NeuralError::ComputationError(m) => String::from_str("Computation error: ").concat(
                m.as_str(),
            ),
            NeuralError::DimensionMismatch(m) => String::from_str("Dimension mismatch: ").concat(
                m.as_str(),
            ),
            NeuralError::DistributedError(m) => String::from_str(
                "Distributed training error: ",
            ).concat(m.as_str()),
            NeuralError::Other(m) => String::from_str("Error: ").concat(m.as_str()),
        }
    }

    /// The inference error that reports a shape failure described by `text`.
    pub fn shape_failure(text: String) -> (e: NeuralError)
        ensures
            e is InferenceError,
            e.detail() == shape_prefix() + text@,
    {
        NeuralError::InferenceError(String::from_str("Shape error: ").concat(text.as_str()))
    }

    /// The IO error that carries `text` as it is.
    pub fn io_failure(text: String) -> (e: NeuralError)
        ensures
            e == NeuralError::IOError(text),
    {
        NeuralError::IOError(text)
    }
}

/// `ndarray::ShapeError`: a failed reshape or shape check of the array
/// library. Nothing is known of what it holds.
#[verifier::external_type_specification]
#[verifier::external_body]
pub struct ExShapeError(ndarray::ShapeError);

/// `std::io::Error`: a failed input or output operation of the standard
/// library. Nothing is known of what it holds.
#[verifier::external_type_specification]
#[verifier::external_body]
pub struct ExIoError(std::io::Error);

impl From<ndarray::ShapeError> for NeuralError {
    /// A shape failure of the array library becomes an inference error whose
    /// message is the shape prefix followed by the text that the failure
    /// shows of itself.
    fn from(error: ndarray::ShapeError) -> (e: NeuralError)
        ensures
            e is InferenceError,
            exists|text: String|
                vstd::string::to_string_from_display_ensures::<ndarray::ShapeError>(&error, text)
                    && e.detail() == shape_prefix() + text@,
    {
        NeuralError::shape_failure(error.to_string())
    }
}

impl FromSpecImpl<ndarray::ShapeError> for NeuralError {
    open spec fn obeys_from_spec() -> bool {
        false
    }

    open spec fn from_spec(error: ndarray::ShapeError) -> NeuralError {
        arbitrary()
    }
}

impl From<std::io::Error> for NeuralError {
    /// An IO failure of the standard library becomes an IO error that carries
    /// the text that the failure shows of itself.
    fn from(error: std::io::Error) -> (e: NeuralError)
        ensures
            e is IOError,
            vstd::string::to_string_from_display_ensures::<std::io::Error>(
                &error,
                e->IOError_0,
            ),
    {
        NeuralError::io_failure(error.to_string())
    }
}

impl FromSpecImpl<std::io::Error> for NeuralError {
    open spec fn obeys_from_spec() -> bool {
        false
    }

    open spec fn from_spec(error: std::io::Error) -> NeuralError {
        arbitrary()
    }
}

} // verus!
