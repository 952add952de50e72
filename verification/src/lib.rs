//! Decision logic of a Windows setup assistant: which scripts and package
//! manager commands to run, and how their output becomes progress reports.
#![allow(unused_imports)]

pub mod text;
pub mod tweaks;
pub mod command;
pub mod progress;
pub mod runner;
pub mod install;
pub mod detect;
pub mod system;
pub mod window;
pub mod batch;
pub mod tweak_content;
