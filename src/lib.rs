//! Adapter between a component host's wire types and the in-process message
//! model that a user handler works on: header validation, request and
//! response translation, error responses and capability dispatch.

pub mod headers;
pub mod wire;
pub mod convert;
pub mod failure;
pub mod dispatch;
