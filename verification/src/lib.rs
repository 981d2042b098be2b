//! Build-time logic of an Xcode helper for Rust static libraries, together with
//! a few small companion modules (sign-up validation and scribble-pad lookup).
pub mod config;
pub mod manifest;
pub mod xcode_env;
pub mod cli;
pub mod xcode_build_rs;
pub mod signup;
pub mod scribble;
