//! Driver logic for the Raspberry Pi "mini UART": register layout,
//! initialization plan, status decoding, the polling decisions of the
//! transmit / receive / bounded-wait primitives, and line-ending
//! normalization, all with verified contracts.
pub mod line_status;
pub mod registers;
pub mod init;
pub mod text;
pub mod uart;
pub mod sim;
