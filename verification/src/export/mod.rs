pub mod svg;
pub mod metadata;
