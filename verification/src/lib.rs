//! Verified decisions of the local thread store: migrating legacy rollout files to paginated
//! history, publishing the result without losing the source, and guarding the live writer.
//!
//! The library computes on plain values. Reading files, taking locks, talking to SQLite and
//! serialising records is done by the program around it, which performs the actions that the
//! functions here return and hands back what happened.

pub mod artifact_laws;
pub mod canonical_laws;
pub mod canonical_output;
pub mod canonical_record_laws;
pub mod canonicalizer;
pub mod context_laws;
pub mod conversion;
pub mod deletion;
pub mod deletion_laws;
pub mod discovery;
pub mod disk;
pub mod error;
pub mod finish;
pub mod generation;
pub mod id_order;
pub mod inspection;
pub mod item_ids;
pub mod journal_laws;
pub mod limiter;
pub mod live_actions;
pub mod live_write;
pub mod lock_laws;
pub mod migrate_one;
pub mod migrate_path;
pub mod migrate_path_laws;
pub mod migration_laws;
pub mod migration_run;
pub mod migration_step_laws;
pub mod model_context;
pub mod names;
pub mod occurrence_ids;
pub mod occurrence_laws;
pub mod operation_laws;
pub mod operations;
pub mod outside;
pub mod path_laws;
pub mod paths;
pub mod record;
pub mod record_laws;
pub mod projection;
pub mod publish;
pub mod publish_laws;
pub mod recover;
pub mod recover_laws;
pub mod recovery;
pub mod recovery_laws;
pub mod refusals;
pub mod replay;
pub mod report;
pub mod resume;
pub mod resume_laws;
pub mod retention;
pub mod retention_laws;
pub mod retire_thread;
pub mod retirement;
pub mod rollback_apply;
pub mod rollback_laws;
pub mod rollback_plan;
pub mod rollback_record_laws;
pub mod rollout;
pub mod run;
pub mod run_laws;
pub mod run_step_laws;
pub mod shutdown;
pub mod source_laws;
pub mod source_owner;
pub mod text;
pub mod text_laws;
pub mod torn_strings;
pub mod validation;
pub mod validation_laws;
pub mod view_laws;
pub mod walk;
pub mod write_laws;
pub mod writer_lock;
