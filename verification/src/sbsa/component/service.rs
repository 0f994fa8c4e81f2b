//! Service components provided by the SBSA platform.

pub mod smbios_platform;
