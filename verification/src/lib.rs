//! Supervision of a backend service process and a consent-gated self-update
//! flow, written as verified decision logic over plain values.

pub mod event;
pub mod greeting;
pub mod registry;
pub mod relay;
pub mod shutdown;
pub mod supervisor;
pub mod text;
pub mod update;
