//! The two-kind error taxonomy of the payments boundary: the response (or
//! request) could not be (de)serialized, or the transport itself failed.

use vstd::prelude::*;

verus! {

#[verifier::ext_equal]
pub enum PaymentsErrorV {
    Serialization(Seq<char>),
    Client(Seq<char>),
}

/// What a payments operation can fail with. `Serialization` covers an
/// undecodable response or unencodable request; `Client` covers every
/// transport-level problem, carried as an opaque message.
#[derive(Debug)]
pub enum PaymentsError {
    Serialization(String),
    Client(String),
}

impl View for PaymentsError {
    type V = PaymentsErrorV;

    open spec fn view(&self) -> PaymentsErrorV {
        match self {
            PaymentsError::Serialization(m) => PaymentsErrorV::Serialization(m@),
            PaymentsError::Client(m) => PaymentsErrorV::Client(m@),
        }
    }
}

/// The descriptive message an error carries, whichever kind it is.
pub open spec fn error_message_v(e: PaymentsErrorV) -> Seq<char> {
    match e {
        PaymentsErrorV::Serialization(m) => m,
        PaymentsErrorV::Client(m) => m,
    }
}

#[verifier::external_type_specification]
#[verifier::external_body]
pub struct ExSerdeJsonError(serde_json::Error);

/// Relies on serde_json::Error's Display implementation: renders the error
/// as descriptive text. The text itself is unspecified.
#[verifier::external_body]
fn render_serde_error(e: &serde_json::Error) -> String {
    e.to_string()
}

impl PaymentsError {
    /// Maps a JSON decode or encode failure into the serialization kind,
    /// keeping its rendered message.
    pub fn from_serde(e: serde_json::Error) -> (r: PaymentsError)
        ensures
            r@ is Serialization,
    {
        PaymentsError::Serialization(render_serde_error(&e))
    }

    /// Whether this is the serialization kind.
    pub fn is_serialization(&self) -> (b: bool)
        ensures
            b == (self@ is Serialization),
    {
        match self {
            PaymentsError::Serialization(_) => true,
            PaymentsError::Client(_) => false,
        }
    }

    /// Whether this is the transport kind.
    pub fn is_client(&self) -> (b: bool)
        ensures
            b == (self@ is Client),
    {
        match self {
            PaymentsError::Client(_) => true,
            PaymentsError::Serialization(_) => false,
        }
    }

    /// The descriptive message, as `error_message_v` describes it.
    pub fn message(&self) -> (r: &String)
        ensures
            r@ == error_message_v(self@),
    {
        match self {
            PaymentsError::Serialization(m) => m,
            PaymentsError::Client(m) => m,
        }
    }
}

} // verus!
