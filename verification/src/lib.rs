pub mod aarch64;
pub mod arch;
pub mod boot_image;
pub mod error;
pub mod laws;
pub mod logger;
pub mod object;
pub mod page_table;
pub mod port;
pub mod riscv;
pub mod signal;
pub mod vm;
pub mod wait;
