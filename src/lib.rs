pub mod cloud;
pub mod engine;
pub mod envelope;
pub mod local;
pub mod note;
pub mod search;
pub mod stamp;
