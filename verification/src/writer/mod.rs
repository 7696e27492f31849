pub mod pgf;
pub mod container;
