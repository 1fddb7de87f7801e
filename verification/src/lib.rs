//! Verified support code for demonstration programs of an audio middleware
//! binding: where the vendor's example banks lie on disk, the decisions of
//! the interactive test harness, and those of the scripted demonstration.

pub mod demo;
pub mod errors;
pub mod harness;
pub mod keys;
pub mod paths;
pub mod text;
pub mod trace;
pub mod version;

pub use paths::{get_example_bank_path, get_example_banks_dir, get_fmod_sdk_dir};
