//! Control Sequence Introducer (CSI) escape sequences for ANSI/VT100
//! terminals: the byte strings that move the cursor, erase, scroll, style
//! text and shape the cursor, and the parser for the terminal's reply to a
//! cursor-position query.
pub mod csi;
pub mod decimal;
pub mod laws;
pub mod report;
