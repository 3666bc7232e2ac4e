//! Note-path resolution for a project-scoped note keeper.
//!
//! The library walks a directory ancestry for project markers, classifies
//! the hit into a project root, derives a deterministic note-file path from
//! that classification (branch-aware for version-controlled projects), and
//! drives an atomic create-once initialization protocol for the note file.
//! All filesystem and process effects are performed by the surrounding
//! application; the library computes decisions and proves them correct.

pub mod bytestr;
pub mod classify;
pub mod config;
pub mod date;
pub mod engine;
pub mod errors;
pub mod head;
pub mod init;
pub mod resolve;
pub mod scan;

pub use config::render_template;
pub use config::Config;
pub use engine::Cmd;
pub use engine::Engine;
pub use scan::find_project_root;
