pub mod coerce;
pub mod courses;
pub mod extract;
pub mod gpt;
pub mod laws;
pub mod payload;
pub mod prompt;
pub mod query;
pub mod record;
pub mod summary;
pub mod text;
