pub mod error_page;
pub mod health;
pub mod logtail;
pub mod numfmt;
pub mod orchestrator;
pub mod strutil;
pub mod supervisor;
