//! A small web-application framework: routes requests to handlers, runs them
//! through ordered lifecycle hooks, resolves failures through module- and
//! application-scoped error handlers, and serves files with byte ranges.
//!
//! Handlers and hooks are user code that the library never calls itself: it
//! holds them as `FuncId` handles and decides, step by step, which one the
//! caller runs next.

pub mod app;
pub mod datastructures;
pub mod module;
pub mod pipeline;
pub mod formparser;
pub mod helpers;
pub mod registry;
pub mod routing;
pub mod text;
pub mod types;
pub mod wrappers;

pub use app::{Pencil, ViewFunc};
pub use datastructures::MultiDict;
pub use formparser::FormDataParser;
pub use helpers::{
    abort, escape, redirect, safe_join, send_file, send_file_range, send_from_directory,
    send_from_directory_range, ByteRangeSpec, FileProbe, Range,
};
pub use module::Module;
pub use pipeline::Stage;
pub use routing::Method;
pub use types::{HTTPError, PenError, UserError};
pub use wrappers::{Body, Request, Response};
