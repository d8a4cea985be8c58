//! A verified core for a dataflow query engine.
//!
//! * [`port`] is the single-slot handoff between two processors, and
//!   [`processor`] what a processor answers to a poll.
//! * [`table_source`] is the scan processor over iceberg data files: a state
//!   machine that asks for its I/O instead of waiting for it.
//! * [`lane`] and [`executor`] schedule scan processors and the sink that
//!   pulls from them, one poll at a time, and keep count of what was fetched,
//!   pushed and pulled.
//! * [`exchange`] says where an exchange sends a row.
//! * [`interpreter_copy`] turns a copy statement into a pipeline, on this node
//!   or on the cluster; [`plan`], [`pipeline`], [`partition`] and [`context`]
//!   hold what it reads and builds.
//! * [`aggregator_groups_builder`] turns group keys back into columns, with
//!   [`deserializer`] for the binary form of values and [`datavalues`] for
//!   types, values, columns and blocks.
//! * [`error`] is the error taxonomy, [`text`] the decimal text of counts.

pub mod aggregator_groups_builder;
pub mod context;
pub mod datavalues;
pub mod deserializer;
pub mod error;
pub mod exchange;
pub mod executor;
pub mod interpreter_copy;
pub mod lane;
pub mod partition;
pub mod pipeline;
pub mod plan;
pub mod port;
pub mod processor;
pub mod table_source;
pub mod text;
