//! Worker supervision and event ingestion for a multi-tenant messaging gateway.
//!
//! Each tenant runs one external worker process. The library holds the
//! decisions of that subsystem as verified functions: addressing of control
//! messages, the worker registry, the per-tenant supervisor state machine, the
//! framed binary event codec, event dispatch and session teardown. The
//! surrounding program performs the I/O that those decisions call for.

pub mod text;
pub mod control;
pub mod registry;
pub mod supervisor;
pub mod frame;
pub mod varint;
pub mod event;
pub mod dispatch;
pub mod manager;
pub mod logger;
pub mod security;
pub mod response_codes;
pub mod models;
