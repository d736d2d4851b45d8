//! Extension blocks for a host dataflow engine.
//!
//! The host owns graph construction and scheduling; this library provides the
//! leaf units ("blocks") that the host drives through a fixed lifecycle, the
//! tagged value model they exchange data with, parameter bindings that resolve
//! to named context variables, static dependency declarations, and a shared
//! physics simulation addressed through generation-checked handles.

pub mod error;
pub mod value;
pub mod simulation;
pub mod context;
pub mod binding;
pub mod deps;
pub mod registry;
pub mod hash;
pub mod ecdsa;
pub mod browse;
pub mod forces;
