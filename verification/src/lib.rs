//! Update logic of the singboard panel and of its sing-box core: version
//! comparison, release and asset selection, download-source checks, and the
//! step machines that replace files and roll them back.

pub mod core_files;
pub mod digest;
pub mod overwrite;
pub mod panel;
pub mod release;
pub mod search;
pub mod swap;
pub mod text;
pub mod version;
