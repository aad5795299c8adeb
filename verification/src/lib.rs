//! Tripwire: the data model and the state logic of a chat client.
#![allow(unused_imports)]

pub mod models;
pub mod text;
pub mod encoding;
pub mod store;
pub mod message;
pub mod screens;
pub mod actions;
pub mod auth;
pub mod mock_data;
pub mod upload;
pub mod app;
pub mod forum;
pub mod voice;
pub mod members;
