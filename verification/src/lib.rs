//! Verified core of a local chat workbench: message transcripts, the
//! decisions around a local model server, the HTTP ingest rules and the
//! audit trail records.

pub mod text;
pub mod audit;
pub mod audit_line;
pub mod chat;
pub mod clock;
pub mod json;
pub mod ollama;
pub mod server;
pub mod export;
pub mod session;
pub mod openai;
