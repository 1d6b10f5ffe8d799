//! What each endpoint decides, apart from the network traffic around it.

pub mod admin;
pub mod health;
pub mod image;
pub mod job;
pub mod upload;
pub mod url_upload;
