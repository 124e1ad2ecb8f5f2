//! The request pipelines. Each one is a state machine: the caller performs
//! the action it is handed, reports what came of it as an event, and is
//! handed the next action, until the machine responds.

pub mod files;
pub mod frontend;
pub mod upload;

pub use files::{delete_file, get_file_by_id_handler, list_files, FilesQuery};
pub use frontend::{serve_style_css, serve_upload_page};
pub use upload::{upload_file, AppState};
