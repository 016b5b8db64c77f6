//! Orchestration of a binding generator: from a source description of data
//! structures and service traits to one Go file that exposes them across the
//! foreign-function boundary.
//!
//! The library decides and assembles; reading, writing and the text generators
//! are performed by the caller, which reports each outcome as a [`pipeline::Event`]
//! and receives the next [`pipeline::Action`].

pub mod config;
pub mod fault;
pub mod descriptor;
pub mod transport;
pub mod blocks;
pub mod mapping;
pub mod decode;
pub mod document;
pub mod pipeline;
