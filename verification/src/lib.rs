//! Looks a phrase up in an online encyclopedia: builds the two requests,
//! reads the two replies, and formats what is shown to the user.
//!
//! The library never touches the network. A caller sends each request the
//! library asks for and hands the reply back.

pub mod error;
pub mod json;
pub mod lookup;
pub mod pipeline;
pub mod summary;
pub mod text;
