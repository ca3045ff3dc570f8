//! A controller of the in-app browser of a Codex task: the navigation policy,
//! the protocol of the browser backend, and the operations on pages, each as
//! decisions from what is told to what is to be done.
pub mod awaits;
pub mod client;
pub mod config;
pub mod controller;
pub mod course;
pub mod deeds;
pub mod discovery;
pub mod error;
pub mod files;
pub mod flow;
pub mod json;
pub mod laws;
pub mod limits;
pub mod operation;
pub mod outset;
pub mod path;
pub mod protocol;
pub mod reply;
pub mod report;
pub mod rollout;
pub mod script;
pub mod tabs;
pub mod task;
pub mod text;
