pub mod color;
pub mod path;
pub mod pattern;
pub mod svg;
pub mod xml;
