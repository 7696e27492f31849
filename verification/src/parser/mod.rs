pub mod lexer;
pub mod operand;
pub mod operators;
pub mod structure;
pub mod ascii85;
pub mod container;
pub mod ai_parser;
