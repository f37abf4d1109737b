//! Verified core of a tool that compares node performance between two git references.

pub mod args;
pub mod arguments;
pub mod benchmark;
pub mod chain;
pub mod charts;
pub mod comparison;
pub mod compilation;
pub mod course;
pub mod error;
pub mod history;
pub mod home;
pub mod laws;
pub mod outside;
pub mod paths;
pub mod ports;
pub mod protocol;
pub mod samply;
pub mod scripts;
pub mod text;
pub mod warmup;
pub mod workflow;
