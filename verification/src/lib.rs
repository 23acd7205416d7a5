pub mod dom;
pub mod extract;
pub mod parse;
pub mod records;
pub mod render;
pub mod text;
