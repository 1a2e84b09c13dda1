//! Shadow metadata for instrumented programs.
//!
//! Instrumented code reports its allocations, pointer derivations and memory
//! accesses; this library keeps a table of the live allocations, decides
//! whether a pointer operation stays inside the allocation it belongs to, and
//! puts together the lines of the execution trace and of the log of
//! dynamically resolved symbols.
//!
//! * [`shadowobjs`]: shadow objects and the address-ordered table.
//! * [`table_lemmas`]: what holds of every table.
//! * [`remediate`]: the decisions behind the allocator wrappers and the
//!   pointer checks.
//! * [`remediate_lemmas`]: what holds of those decisions across calls.
//! * [`buffer_writer`], [`text`], [`trace`]: the lines of the trace.
//! * [`dlsym`]: the JSON log of resolved symbols.
//! * [`files`]: the names of the per-process log files.

pub mod buffer_writer;
pub mod dlsym;
pub mod files;
pub mod remediate;
pub mod remediate_lemmas;
pub mod shadowobjs;
pub mod table_lemmas;
pub mod text;
pub mod trace;
