pub mod text;
pub mod url;
pub mod json;
pub mod cache;
pub mod sources;
pub mod llm;
pub mod card;
pub mod dictionary;
pub mod preview;
pub mod render;
pub mod search;
