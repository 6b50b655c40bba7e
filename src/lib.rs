pub mod diagnostics;
pub mod driver;
pub mod files;
pub mod pipeline;
pub mod sanitize;
pub mod stages;
mod text;
