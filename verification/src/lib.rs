//! Emulation core for the AT&T WE32100 microprocessor as used in the
//! DMD 5620 terminal: instruction decoding, operand evaluation, the
//! processor status word, and the dual-channel UART that feeds the
//! interrupt vector.

pub mod bus;
pub mod cpu;
pub mod decode;
pub mod duart;
pub mod err;
pub mod instr;
pub mod optable;
