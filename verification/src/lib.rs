//! Decisions, codecs and statement plans of a PostgreSQL adapter for
//! authoritative filesystem state.
//!
//! Every rule of the adapter that can be stated on plain values lives here with
//! a contract: the row and key codecs, the classification of native failures,
//! request validation, scan and poll planning, lease replay, and the commit
//! protocol. Talking to the database is left to the caller.

pub mod accept_law;
pub mod ancestry;
pub mod attempt_law;
pub mod bytes;
pub mod catalog;
pub mod change;
pub mod change_law;
pub mod change_plan;
pub mod clock;
pub mod column_law;
pub mod commit;
pub mod commit_law;
pub mod commit_run;
pub mod config;
pub mod constraint_law;
pub mod control_law;
pub mod database;
pub mod describe;
pub mod directory_page;
pub mod estimate;
pub mod failure;
pub mod failure_law;
pub mod fence_law;
pub mod ids;
pub mod invariant_sql;
pub mod invariants;
pub mod key;
pub mod key_codec;
pub mod layer;
pub mod lease;
pub mod lease_attempt;
pub mod lease_law;
pub mod lease_staging;
pub mod limits;
pub mod lock_check;
pub mod lock_law;
pub mod log_law;
pub mod message;
pub mod migration;
pub mod numeric;
pub mod open_law;
pub mod order_law;
pub mod page_law;
pub mod poll;
pub mod poll_law;
pub mod precondition;
pub mod precondition_law;
pub mod publish;
pub mod query;
pub mod read;
pub mod read_law;
pub mod read_sql;
pub mod record;
pub mod record_write;
pub mod relation_law;
pub mod report_law;
pub mod request;
pub mod request_law;
pub mod retry;
pub mod row_codec;
pub mod row_law;
pub mod rows;
pub mod run_law;
pub mod scan;
pub mod schema;
pub mod sqlstate;
pub mod statement;
pub mod store;
pub mod table;
pub mod targets;
pub mod testing;
pub mod text;
pub mod transaction;
pub mod transition;
pub mod transition_law;
pub mod validation;
pub mod value_law;
pub mod values;
pub mod write_law;
