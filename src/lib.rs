//! Front end of a build-time shader compiler: resolves partial compilation
//! directives into a complete configuration, tracks the files a compilation
//! depends on, and dispatches to the one backend that serves the source
//! language. The native backend is built on naga.

use vstd::prelude::*;

pub mod config;
pub mod dispatch;
pub mod includes;
pub mod native;
pub mod resolve;
pub mod text;
