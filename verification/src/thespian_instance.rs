//! The service definition: a name and the bindings of the three entry points.

use crate::decode::{decode_service, decoded_service};
use crate::json::{json_text, parse, Json, JsonView};
use crate::workflow::{FunctionView, GrpcMethod, OptionalFunction};
use vstd::prelude::*;

verus! {

/// Why a configuration text was turned down.
#[derive(Clone, Copy, Debug, PartialEq, Eq, Structural)]
pub enum DecodeError {
    /// The text was not read as one JSON document.
    InvalidJson,
    /// The document does not have the shape of a service definition.
    UnexpectedShape,
}

/// A service definition: the service's name and what each of its three entry
/// points is bound to.
#[derive(Debug, PartialEq, Eq)]
pub struct ThespianInstance {
    pub service_name: String,
    pub grpc_method_a: OptionalFunction,
    pub grpc_method_b: OptionalFunction,
    pub grpc_method_c: OptionalFunction,
}

/// The mathematical value of a [`ThespianInstance`].
pub struct ThespianInstanceView {
    pub service_name: Seq<char>,
    pub grpc_method_a: Option<FunctionView>,
    pub grpc_method_b: Option<FunctionView>,
    pub grpc_method_c: Option<FunctionView>,
}

impl View for ThespianInstance {
    type V = ThespianInstanceView;

    open spec fn view(&self) -> ThespianInstanceView {
        ThespianInstanceView {
            service_name: self.service_name@,
            grpc_method_a: self.grpc_method_a@,
            grpc_method_b: self.grpc_method_b@,
            grpc_method_c: self.grpc_method_c@,
        }
    }
}

/// The mathematical value of what decoding gives.
pub open spec fn decoding_view(outcome: Result<ThespianInstance, DecodeError>) -> Result<
    ThespianInstanceView,
    DecodeError,
> {
    match outcome {
        Ok(instance) => Ok(instance@),
        Err(error) => Err(error),
    }
}

/// What a document decodes to: the service definition that it describes, or
/// the error that it does not have the shape of one.
pub open spec fn decoded_document(document: Option<JsonView>) -> Result<
    ThespianInstanceView,
    DecodeError,
> {
    match document {
        None => Err(DecodeError::InvalidJson),
        Some(json) => match decoded_service(json) {
            Some(service) => Ok(service),
            None => Err(DecodeError::UnexpectedShape),
        },
    }
}

/// What a configuration text decodes to. Decoding is all or nothing: the
/// whole definition, or an error.
pub open spec fn decoded(config_json: Seq<char>) -> Result<ThespianInstanceView, DecodeError> {
    decoded_document(json_text(config_json))
}

impl ThespianInstance {
    /// Decodes a service definition from a JSON document that was read before.
    pub fn from_json(document: &Json) -> (outcome: Result<ThespianInstance, DecodeError>)
        ensures
            decoding_view(outcome) == decoded_document(Some(document@)),
    {
        match decode_service(document) {
            Some(instance) => Ok(instance),
            None => Err(DecodeError::UnexpectedShape),
        }
    }

    /// Decodes a service definition from its configuration text.
    pub fn new(config_json: &str) -> (outcome: Result<ThespianInstance, DecodeError>)
        ensures
            decoding_view(outcome) == decoded(config_json@),
    {
        match parse(config_json) {
            Some(document) => ThespianInstance::from_json(&document),
            None => Err(DecodeError::InvalidJson),
        }
    }

    /// The name of the service.
    pub fn service_name(&self) -> (name: String)
        ensures
            name@ == self@.service_name,
    {
        self.service_name.clone()
    }

    /// What the entry point `method` is bound to.
    pub open spec fn binding(self, method: GrpcMethod) -> OptionalFunction {
        match method {
            GrpcMethod::A => self.grpc_method_a,
            GrpcMethod::B => self.grpc_method_b,
            GrpcMethod::C => self.grpc_method_c,
        }
    }

    /// What the entry point `method` is bound to.
    pub fn entry_point(&self, method: GrpcMethod) -> (bound: &OptionalFunction)
        ensures
            *bound == self.binding(method),
    {
        match method {
            GrpcMethod::A => &self.grpc_method_a,
            GrpcMethod::B => &self.grpc_method_b,
            GrpcMethod::C => &self.grpc_method_c,
        }
    }
}

} // verus!
