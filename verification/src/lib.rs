//! EasyPDF: the verified core of a local PDF tool.
//!
//! - [`document`], [`command`], [`error`]: the document model and the
//!   undoable commands that are the only way to change it.
//! - [`cache`], [`wire`], [`render`], [`session`]: rendered tiles, their
//!   memory-bounded cache, and the format that carries them to the display.
//! - [`framing`], [`protocol`], [`worker`], [`limits`]: the boundary to the
//!   sandboxed worker that handles untrusted documents.
//! - [`crypto`], [`permissions`]: encryption and signature policy.
//! - [`decimal`], [`ext`]: message text and the standard-library values the
//!   errors carry.
pub mod cache;
pub mod command;
pub mod crypto;
pub mod decimal;
pub mod document;
pub mod error;
pub mod ext;
pub mod framing;
pub mod limits;
pub mod permissions;
pub mod protocol;
pub mod render;
pub mod session;
pub mod wire;
pub mod worker;

pub use cache::{Tile, TileCache, TileKey, ZoomBucket};
pub use command::{Command, CommandStack, MovePage, PageEdit, RotatePage};
pub use document::{Document, Page, PageIndex, PageSize, Rotation};
pub use error::{Error, Result};
pub use limits::Limits;
pub use permissions::Permissions;
pub use protocol::{Response, WorkerError};
pub use render::{Rasterizer, RenderError};
pub use wire::{bgra_to_rgba, decode_page, encode_page};
