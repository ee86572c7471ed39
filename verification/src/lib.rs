pub mod collect;
pub mod laws;
pub mod parse;
pub mod render;
pub mod schema;
pub mod util;
pub mod validate;
pub mod values;
