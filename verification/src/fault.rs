use vstd::prelude::*;

verus! {

/// Everything that can go wrong in the indicator.
#[derive(Clone, Copy, Debug, PartialEq, Eq, Structural)]
pub enum Fault {
    /// The bus transaction that reads the magnetometer failed: a timeout, a
    /// NACK, or a malformed reply.
    SensorFault,
    /// A GPIO write to one of the indicator LEDs failed.
    DisplayFault,
    /// Peripheral acquisition failed at startup — for instance a second
    /// attempt to take the singleton hardware resources. Unrecoverable: the
    /// device cannot safely continue without its peripherals.
    InitFault,
}

} // verus!
