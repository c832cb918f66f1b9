//! Error taxonomy of the inference service.
//!
//! Every failure of a request falls in exactly one class, and the class
//! alone decides the HTTP status: user input errors answer 400, all
//! others 500. Model-load errors are fatal at startup; they carry a
//! status only for the rare case that one surfaces while serving.

use vstd::prelude::*;

verus! {

/// One failure of the service, with a human-readable message.
#[derive(Debug, Clone)]
pub enum ServiceError {
    /// Missing image part, or an undecodable/corrupt image: the caller's
    /// fault, answered with 400; the model is never invoked.
    UserInput(String),
    /// Missing artifact or a shape mismatch against the configured
    /// architecture: fatal at startup.
    ModelLoad(String),
    /// Runtime shape mismatch or an internal numeric failure: 500.
    Inference(String),
    /// Response serialization failure: 500.
    Encoding(String),
}

impl ServiceError {
    /// Whether the failure is the caller's fault.
    pub open spec fn is_user_input(&self) -> bool {
        self matches ServiceError::UserInput(_)
    }

    /// The status this failure answers with: 400 for the caller's fault,
    /// 500 for everything else.
    pub open spec fn spec_status(&self) -> u16 {
        if self.is_user_input() {
            400
        } else {
            500
        }
    }

    /// The message carried by the failure.
    pub open spec fn spec_message(&self) -> Seq<char> {
        match self {
            ServiceError::UserInput(m) => m@,
            ServiceError::ModelLoad(m) => m@,
            ServiceError::Inference(m) => m@,
            ServiceError::Encoding(m) => m@,
        }
    }

    /// HTTP status of this failure: 400 exactly for user input errors,
    /// 500 for every internal one.
    pub fn status_code(&self) -> (r: u16)
        ensures
            r == self.spec_status(),
            r == 400 <==> self.is_user_input(),
            r == 400 || r == 500,
    {
        match self {
            ServiceError::UserInput(_) => 400,
            ServiceError::ModelLoad(_) => 500,
            ServiceError::Inference(_) => 500,
            ServiceError::Encoding(_) => 500,
        }
    }

    /// The human-readable message of this failure.
    pub fn message(&self) -> (r: &String)
        ensures
            r@ == self.spec_message(),
    {
        match self {
            ServiceError::UserInput(m) => m,
            ServiceError::ModelLoad(m) => m,
            ServiceError::Inference(m) => m,
            ServiceError::Encoding(m) => m,
        }
    }
}

} // verus!
