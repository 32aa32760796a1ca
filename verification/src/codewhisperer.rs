//! Shapes of the enterprise assistant's interface: the input of one
//! operation and one modelled error, each with its builder.

pub mod access_denied_error;
pub mod metadata;
pub mod start_task_assist_code_generation;
pub mod types;
