//! Decision logic of a pool of workers that materialize download targets:
//! directories to create and files to fetch from a URL. Every filesystem,
//! network and channel operation is performed by the caller; the library
//! decides which operation comes next and what the outcome is.

mod guarantees;
mod materialize;
mod privilege;
mod status;
mod target;
mod worker;

pub use guarantees::{
    after_fetch, from_staging, lemma_existing_entry_blocks_directory, lemma_finished_is_final,
    lemma_missing_source_fails, lemma_ownership_follows_privilege, lemma_parents_before_staging,
    lemma_pool_replies_once, lemma_present_destination_is_untouched,
    lemma_publish_after_complete_fetch, lemma_run_keeps, lemma_run_passes_gate, lemma_run_phase_ok,
    lemma_run_split, sourceless_phase, total_received, total_replied,
};
pub use materialize::{
    outcome_of, path_parent, privilege_event, Action, ActionView, Event, Job, Materializer, Phase,
};
pub use privilege::{is_elevated, is_root_uid};
pub use status::{done_status, status_of, DownloadDoneStatus, MaterializeError};
pub use target::{lemma_staging_differs, staging_path, staging_path_of, DownloadTarget, TargetType};
pub use worker::{DownloadTargetMessage, Worker, WorkerAction, WorkerEvent};
