//! Decision logic for writing minidumps on Windows.
//!
//! A dump is a conversation with the operating system: suspend a thread, read
//! its context, open the crashed process, hand everything to
//! `MiniDumpWriteDump`, close what was opened. This crate holds the side of the
//! conversation that decides. [`minidump_writer::MinidumpWriter`] starts a
//! [`dump::Dump`]; a dump names the call that it needs next
//! ([`dump::Dump::request`]) and moves on with what the call returned
//! ([`dump::Dump::resume`]). Whoever drives it performs the calls.
//!
//! The module [`run`] defines what a whole conversation is, and the modules
//! whose names start with `law` state what every conversation keeps to.
pub mod breakpad;
pub mod crash_context;
pub mod dump;
pub mod dump_type;
pub mod errors;
pub mod law_conversation;
pub mod law_handles;
pub mod law_local;
pub mod law_outcome;
pub mod law_threads;
pub mod law_written;
pub mod minidump_writer;
pub mod protocol;
pub mod run;
pub mod winnt;
