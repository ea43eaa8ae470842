//! Update, install and rollback engine for externally sourced command-line tools.

pub mod archive;
pub mod backups;
pub mod catalog;
pub mod download;
pub mod errors;
pub mod extract;
pub mod files;
pub mod install;
pub mod installed;
pub mod lookup;
pub mod manual;
pub mod paths;
pub mod plan;
pub mod present;
pub mod progress;
pub mod protocol;
pub mod purge;
pub mod purged;
pub mod release;
pub mod restore;
pub mod rollback;
pub mod session;
pub mod text;
pub mod undone;
pub mod update;
pub mod version;
