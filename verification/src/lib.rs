//! Discovery, selection and invocation logic for C-SKY CDK builds.

pub mod text;
pub mod error;
pub mod model;
pub mod runner;
pub mod json;
pub mod document;
pub mod paths;
pub mod parser;
pub mod config;
pub mod discovery;
pub mod cli;
pub mod counter;
