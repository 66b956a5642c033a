//! An in-memory mirror of a small set of named process-control records that
//! live in a remote blob store, with the rules that decide when the mirror is
//! stale and how a change is written back without overwriting what another
//! writer stored in the meantime.
//!
//! The library never talks to the store itself. Every operation is broken
//! into steps; each step names the one remote call that has to be made next,
//! and the caller hands the outcome of that call back in.

pub mod api;
pub mod cache;
pub mod clock;
pub mod laws;
pub mod process;
pub mod process_map;
pub mod protocol;
pub mod query;
pub mod s3_name;
pub mod text;

pub use api::{
    reply_to_add, reply_to_delete, reply_to_get, reply_to_list, reply_to_modify, reply_to_patch,
    Body, ProcessPatchInput, Reply,
};
pub use cache::{CacheError, MyCache, StoreError};
pub use clock::{current_timestamp, get_current_time, timestamp_at};
pub use process::{
    create_process, create_process_at, update_process, update_process_partial,
    update_process_partial_at, Process,
};
pub use process_map::{to_list, to_map, ProcessMap};
pub use protocol::{Request, Step};
pub use query::{
    filter_processes, filter_processes_by_name_prefix, filter_processes_by_run,
    filter_processes_by_tags, ProcessQueryParams,
};
pub use s3_name::parse_s3_filename;
pub use text::{decode_brackets, starts_with};
