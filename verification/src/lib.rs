use vstd::prelude::*;

pub mod auth;
pub mod conversation;
pub mod coordinator;
pub mod db;
pub mod error;
pub mod event;
pub mod history;
pub mod message;
pub mod models;
pub mod protocol;
pub mod report;
pub mod request;
pub mod result;
pub mod schemas;
pub mod state;
pub mod tools;
pub mod user;
pub mod validation;
