pub mod linux;
pub mod unsupported;
