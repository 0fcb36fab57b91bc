pub mod diagnosis;
pub mod environment;
pub mod handler;
pub mod invocation;
pub mod redact;
pub mod text;
