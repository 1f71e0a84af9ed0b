//! A task list held in memory, and the JSON document that persists it.
//!
//! `Todo` is the list, with `add_task`, `delete_task`, `update_status` and
//! `list_tasks`. `Todo::new` reads a list from the text of a document and
//! `Todo::to_document` writes one; the module `storage` says where the
//! document is kept and what a new one holds. `Session` is the conversation
//! at the terminal that works on a list, one line of input at a time.
//!
//! The library reads and writes no file and no terminal: it is handed texts
//! and hands texts back. JSON is parsed and printed by the `serde_json`
//! crate; the module `json` states what the library takes from it on trust.
//! Everything else is proved.

pub mod document;
pub mod history;
pub mod json;
pub mod session;
pub mod storage;
pub mod task;
pub mod text;
pub mod todo;

pub use document::{LoadError, SaveError};
pub use storage::{create_app_file, get_app_directory, get_file_path};
pub use task::{Task, TaskStatus};
pub use todo::{AddError, Todo};
