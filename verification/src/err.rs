use vstd::prelude::*;

verus! {

/// Failures raised by the memory bus: misaligned access, an address that no
/// device claims, a write into read-only storage, or a transfer that runs
/// past the end of storage.
#[derive(Clone, Copy, Debug, PartialEq, Eq)]
pub enum BusError {
    Alignment,
    NoDevice,
    Range,
    ReadOnly,
}

/// Exception classes raised by the processor itself.
#[derive(Clone, Copy, Debug, PartialEq, Eq)]
pub enum CpuException {
    IllegalOpcode,
    PrivilegedOpcode,
    ReservedOpcode,
    IntegerOverflow,
    IntegerZeroDivide,
    ProcessException,
}

/// A failed processor step: either a bus failure wrapped by the processor,
/// or an exception the processor raised itself.
#[derive(Clone, Copy, Debug, PartialEq, Eq)]
pub enum CpuError {
    Bus(BusError),
    Exception(CpuException),
}

/// Flow-control signal from the UART receiver: the line has not yet been
/// quiet for a full character time. Callers retry; this is not a fault.
#[derive(Clone, Copy, Debug, PartialEq, Eq)]
pub enum DuartError {
    ReceiverNotReady,
}

} // verus!
