//! Node-level error taxonomy.

use vstd::prelude::*;

verus! {

/// Errors surfaced by the node layer: configuration problems, transport
/// failures, topic lookup failures, agent failures, and codec failures.
#[derive(Debug)]
pub enum NodeError {
    /// Bad startup or call parameters.
    ConfigError(String),
    /// A transport-layer failure reported by the endpoint.
    IrohError(String),
    /// A topic was not found or is in the wrong state.
    TopicError(String),
    /// The external agent collaborator failed.
    AgentError(String),
    /// A value could not be encoded for the wire.
    EncodeError(String),
    /// Inbound bytes could not be decoded.
    DecodeError(String),
    /// An inbound signature did not verify.
    VerifyError(String),
    /// An input/output failure, mapped from the host layer.
    IoError(String),
}

pub type NodeResult<T> = Result<T, NodeError>;

impl NodeError {
    /// The human-readable detail carried by the error.
    pub open spec fn text(&self) -> Seq<char> {
        match *self {
            NodeError::ConfigError(ref m) => m@,
            NodeError::IrohError(ref m) => m@,
            NodeError::TopicError(ref m) => m@,
            NodeError::AgentError(ref m) => m@,
            NodeError::EncodeError(ref m) => m@,
            NodeError::DecodeError(ref m) => m@,
            NodeError::VerifyError(ref m) => m@,
            NodeError::IoError(ref m) => m@,
        }
    }

    /// Borrow the detail message.
    pub fn message(&self) -> (r: &str)
        ensures
            r@ == self.text(),
    {
        match self {
            NodeError::ConfigError(m) => m.as_str(),
            NodeError::IrohError(m) => m.as_str(),
            NodeError::TopicError(m) => m.as_str(),
            NodeError::AgentError(m) => m.as_str(),
            NodeError::EncodeError(m) => m.as_str(),
            NodeError::DecodeError(m) => m.as_str(),
            NodeError::VerifyError(m) => m.as_str(),
            NodeError::IoError(m) => m.as_str(),
        }
    }
}

} // verus!
