//! A client for the StoryBoard task tracker that never touches the network.
//!
//! For every query the library gives the address to ask, and reads the
//! reply that the caller fetched from it into typed records. Sending the
//! request is left to the caller.

pub mod client;
pub mod error;
pub mod json;
pub mod projects;
pub mod stories;
pub mod tasks;
pub mod text;
pub mod time;
pub mod users;
pub mod wire;

pub use client::{get_proxy, ApiResult, Client};
pub use error::{ApiError, Error, Failure};
pub use json::Json;
pub use projects::{Project, ProjectGroup};
pub use stories::{Story, Team};
pub use tasks::{Task, TaskStatusCount};
pub use time::Timestamp;
pub use users::User;
pub use wire::Wire;
