//! Photo-sharing backend core: photographers create albums and upload photos,
//! clients are invited to albums and select photos from them.
//!
//! The relational store and the blob store are outside services. Each request
//! is a workflow that asks the caller to perform store operations and resumes
//! on their replies; the decisions of every workflow are verified here.

pub mod models;
pub mod error;
pub mod decimal;
pub mod row;
pub mod store;
pub mod album;
pub mod invitation;
pub mod selections;
pub mod photo;
pub mod user;
