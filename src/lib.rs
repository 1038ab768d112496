//! Verified core of a bare-metal RISC-V console: the cold-start sequence,
//! machine-mode trap decoding and dispatch, a USART transport model and the
//! console logger that owns it.

pub mod boot;
pub mod console;
pub mod handlers;
pub mod logger;
pub mod serial;
pub mod text;
pub mod trap;
