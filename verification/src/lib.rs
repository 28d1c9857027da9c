//! Request-handling logic of an image-processing web service: bearer-token
//! authentication, account registration and login, and the checks applied to
//! uploaded images and to ID-photo processing requests.
//!
//! The network, database and file-system work is done by the server program;
//! this crate holds the decisions that program takes between those steps.

pub mod text;
pub mod errors;
pub mod auth;
pub mod app_state;
pub mod user;
pub mod image;
pub mod idphoto;
