//! A gRPC server and code generator library: request and header handling,
//! status codes, responses and the generation of service code from
//! descriptions of protobuf services.

pub mod errors;
pub mod num;
pub mod text;
pub mod time;
pub mod status;
pub mod request;
pub mod server;
pub mod debug;
pub mod code_writer;
pub mod codegen;
