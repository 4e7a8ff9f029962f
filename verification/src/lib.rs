//! Turns a plain object into a concurrency-safe wrapper: one run-loop owns
//! the object, and cloneable proxy handles reach it through message channels.
//!
//! The crate works on an explicit interface description: a constructor and a
//! list of method descriptors. From it the synthesis passes derive the message
//! union, the dispatcher, the run-loop shape, and the proxy, each parameterized
//! by a (backend, topology) strategy table. A sample wrapped object together
//! with executable channel, batching-queue and identity machinery shows the
//! derived pieces running.

pub mod backend;
pub mod batch;
pub mod channel;
pub mod counter;
pub mod dispatch;
pub mod errors;
pub mod identity;
pub mod ir;
pub mod message;
pub mod model;
pub mod normalize;
pub mod overrides;
pub mod seqtools;
