//! Batch pairing of video files with subtitle files, and the planning of the
//! tool runs that merge each pair.
//!
//! - `pairing`: classifies directory entries and pairs them by position
//!   after sorting.
//! - `confirm`: the preview shown to the operator and the reading of the
//!   answer.
//! - `language`: the closed table of subtitle languages.
//! - `task`: one task per pair, with the arguments of the tools.
//! - `execution`: the steps of one task's unit of work and the ordered
//!   collection of results.
//! - `batch`: the course of a whole batch, from listing to dispatch.
pub mod batch;
pub mod confirm;
pub mod error;
pub mod execution;
pub mod language;
pub mod pairing;
pub mod task;
pub mod text;
