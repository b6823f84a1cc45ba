//! A hierarchical task list.
//!
//! Task text is read for annotations: `#tags`, `@contexts` and a `due:`
//! date. Tasks live in a store that addresses them by id and links them
//! into trees; a store belongs to a workspace, and the workspace manager
//! keeps the workspaces apart. What is done to a store is recorded as a
//! command, so that it can be undone and redone.
//!
//! Every type has a view, a plain mathematical value, and every operation
//! says in its contract what it does to the views. Operations that read the
//! clock come in two forms: one that takes the moment as an argument and
//! has an exact contract, and one that reads the clock and promises the
//! same for some moment.
//!
//! - [`time`]: readings of the wall clock, and the calendar.
//! - [`text`]: string helpers.
//! - [`annotations`]: the grammar of task text.
//! - [`todo`]: the task.
//! - [`store`], [`edits`], [`removal`], [`recurrence`]: the store of one
//!   workspace and what changes it.
//! - [`order`], [`outline`], [`labels`]: the views of a store.
//! - [`workspace`]: the workspaces.
//! - [`history`], [`replay`]: commands, and their undoing and redoing.
//! - [`session`]: workspaces and history together.
//! - [`front`], [`keys`]: the state machine of an interactive front end,
//!   and what the keys do to it.
//! - [`template`], [`modes`], [`input`], [`storage`]: what the front end
//!   needs beside.

pub mod annotations;
pub mod edits;
pub mod front;
pub mod history;
pub mod input;
pub mod keys;
pub mod labels;
pub mod modes;
pub mod order;
pub mod outline;
pub mod recurrence;
pub mod removal;
pub mod replay;
pub mod session;
pub mod storage;
pub mod store;
pub mod template;
pub mod text;
pub mod time;
pub mod todo;
pub mod workspace;
