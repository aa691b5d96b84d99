//! Rewrites barrel re-exports (`export { Button } from "lib"`) into one
//! re-export per symbol from a per-symbol path, following an ordered table of
//! package patterns and path templates.
pub mod ast;
pub mod config;
pub mod laws;
pub mod pattern;
pub mod render;
pub mod rewrite;
pub mod transform;

pub use ast::{
    ExportAll, ExportDefaultSpecifier, ExportNamedSpecifier, ExportNamespaceSpecifier,
    ExportSpecifier, ModuleExportName, ModuleItem, NamedExport, Span,
};
pub use config::{Config, PackageConfig, Transform};
pub use render::normalize_path;
pub use rewrite::{Fault, Rewriter, TransformError};
pub use transform::{modularize_exports, ModularizeExports};
