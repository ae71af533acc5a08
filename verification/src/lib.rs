//! Launch-option resolution for a JRuby launcher: argument classification,
//! discovery of the installation home and of the Java runtime, and assembly
//! of the Java command line.

pub mod arguments;
pub mod assembly;
pub mod disk;
pub mod environment;
pub mod file_helper;
pub mod file_logger;
pub mod launch_options;
pub mod launcher;
pub mod os_string_ext;
pub mod paths;
pub mod pattern;
pub mod runtime;
pub mod text;
pub mod win_launch;
