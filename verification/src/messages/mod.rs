//! The library's messages: what the engine's responses are decoded into.

pub mod message;
pub mod plan;
pub mod register;
pub mod train;

pub use message::Message;
pub use plan::{CreatePlan, DeletePlan, Plan, Plans, StartPlan, StopPlan};
pub use register::RegisterResponse;
pub use train::Train;
