//! Verified core of the Mastertech service workstation: the decisions, text
//! builders and wire formats behind its tabs, proved against their contracts.
pub mod text;
pub mod tcp_frames;
pub mod file_copy;
pub mod remote;
pub mod scripts;
pub mod task_scheduler;
pub mod antivirus;
pub mod programs;
pub mod startup;
pub mod form;
pub mod shopify;
pub mod dates;
pub mod github;
pub mod process_table;
pub mod tur;
pub mod file_browser;
pub mod data_transfer;
pub mod minidump;
pub mod dock;
