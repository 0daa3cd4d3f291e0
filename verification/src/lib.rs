//! The core of a gateway for text-to-speech synthesis.
//!
//! The gateway takes one canonical speech request and forwards it, adapted,
//! to one of several providers. This library holds what the gateway decides:
//! how the model identifier of a request is resolved into provider and model
//! (`speech`), which adapter serves a provider (`provider`, `adapter`), what
//! each adapter sends to its provider (`openai`, `elevenlabs`), what becomes
//! of the provider's answer (`upstream`), and how an error is reported
//! (`error`). It performs no input or output: it plans the call to the
//! provider, and is told what came of it.
//!
//! Requests carry provider-defined fields as JSON (`json`). Two things are
//! left to the crates that define them, the form encoding of a query and the
//! parsing of a URL (`web`), and a third to the crate that knows the reason
//! phrases of HTTP status codes (`status`).

pub mod status;
pub mod json;
pub mod text;
pub mod error;
pub mod speech;
pub mod provider;
pub mod upstream;
pub mod adapter;
pub mod web;
pub mod openai;
pub mod elevenlabs;
pub mod gateway;
