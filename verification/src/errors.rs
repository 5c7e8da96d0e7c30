//! The closed error taxonomy of the sampling/publishing cycle: one kind per
//! failure site, no sub-classification.

use vstd::prelude::*;

verus! {

/// Every way one sample-then-publish cycle can fail.
#[derive(Clone, Copy, Debug, PartialEq, Eq, Structural)]
pub enum CheckError {
    /// The bus device could not be opened.
    OpenDevice,
    /// The device-address selection control call failed.
    Ioctl,
    /// Writing the configuration register failed.
    Setup,
    /// Writing the conversion-trigger byte failed.
    RequestConversion,
    /// Reading the 4-byte result failed or returned fewer than 4 bytes.
    ReadResult,
    /// One of the two outbound metric posts failed.
    SendInfluxDB,
}

impl CheckError {
    /// A short human-readable name for the failure kind.
    pub fn describe(&self) -> (r: &'static str)
        ensures
            r@ == match *self {
                CheckError::OpenDevice => "OpenDevice"@,
                CheckError::Ioctl => "Ioctl"@,
                CheckError::Setup => "Setup"@,
                CheckError::RequestConversion => "RequestConversion"@,
                CheckError::ReadResult => "ReadResult"@,
                CheckError::SendInfluxDB => "SendInfluxDB"@,
            },
    {
        match *self {
            CheckError::OpenDevice => "OpenDevice",
            CheckError::Ioctl => "Ioctl",
            CheckError::Setup => "Setup",
            CheckError::RequestConversion => "RequestConversion",
            CheckError::ReadResult => "ReadResult",
            CheckError::SendInfluxDB => "SendInfluxDB",
        }
    }
}

} // verus!
