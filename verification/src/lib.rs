//! Core of a Z80-based home computer: CPU interpreter, banked memory with an
//! overlay ROM, I/O port router, WD1793-style floppy controller, TRD disk
//! images, snapshot decoding and screen rasterisation.

pub mod config;
pub mod cpu;
pub mod cpu_ext;
pub mod cpu_ops;
pub mod fdc;
pub mod flags;
pub mod graphics;
pub mod io;
pub mod keyboard;
pub mod memory;
pub mod snapshot;
pub mod trd;
