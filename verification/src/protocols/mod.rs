//! EFI protocol definitions

pub mod files;
pub mod text;
