//! The bodies of the capabilities, one module for each.

pub mod battery;
pub mod clipboard;
pub mod connectivity_report;
pub mod contacts;
pub mod find_my_phone;
pub mod lock;
pub mod mousepad;
pub mod mpris;
pub mod notification;
pub mod ping;
pub mod presenter;
pub mod run_command;
pub mod sftp;
pub mod share;
pub mod sms;
pub mod telephony;
pub mod volume;
