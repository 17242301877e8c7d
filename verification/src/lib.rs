//! Decision logic of a pipeline resource that follows one issue of a hosted
//! issue tracker: which tracker call a configuration asks for, how the
//! tracker's answer is classified, and which versions an observed issue
//! yields.
//!
//! The library decides and never performs: it reaches neither the tracker
//! nor the file system. A program around it makes the call that
//! [`github_issue::Issue::main`] describes and writes the file that
//! [`resource::out_end`] asks for.

pub mod concourse;
pub mod error;
pub mod github_issue;
pub mod resource;
pub mod state;
pub mod text;
pub mod tracker;
