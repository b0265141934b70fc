//! The core of a transcription front end: it decides how an external
//! speech-to-text worker is launched, reads progress out of what the worker
//! prints, keeps the books of the jobs in flight, and finds the transcript
//! that the worker leaves on disk.
//!
//! The library asks the file system and the environment a few questions, and
//! it cancels the tasks that are registered with it; beyond that it takes no
//! step of its own in the outside world. A caller launches the worker and
//! reads its streams; the library says what each event means.

pub mod batch;
pub mod cli;
pub mod clock;
pub mod commands;
pub mod error;
pub mod macos_integration;
pub mod models;
pub mod orchestrator;
pub mod paths;
pub mod progress;
pub mod registry;
pub mod resolver;
pub mod settings;
pub mod system;
pub mod table;
pub mod text;
pub mod updater;
pub mod utils;

pub use registry::BatchProcessingManager;
