pub mod json;
pub mod llm;
pub mod prelude;
pub mod prompt;
pub mod raw_data;
pub mod scalar;
pub mod vector;
pub mod vectorization;
