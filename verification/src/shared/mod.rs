pub mod errors;
pub mod ids;
pub mod text;
pub mod time;
