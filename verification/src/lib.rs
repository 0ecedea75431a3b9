//! Client-side protocol logic for talking to a DataTracks engine: parsing of
//! permissions, the value model carried by trains, the requests a client sends,
//! the decoding of the engine's responses, and the framing of messages on a stream.
//!
//! Everything here works on the plain protocol model of [`wire`]. Frames
//! received from the engine are read into that model by [`codec::decode`],
//! and the messages of the model other than trains are written as bytes by
//! [`codec::encode`]; writing trains and moving bytes over a socket is done
//! around the library.

pub mod codec;
pub mod connection;
pub mod framing;
pub mod messages;
pub mod requests;
pub mod text;
pub mod value;
pub mod wire;

pub use connection::{Client, Permission};
pub use messages::{CreatePlan, DeletePlan, Message, Plan, Plans, RegisterResponse, StartPlan, StopPlan, Train};
pub use value::Value;
