use vstd::prelude::*;

verus! {

/// Every way in which a command of this tool can fail.
#[derive(Clone, Debug, PartialEq, Eq)]
pub enum CliError {
    /// The device bridge tool is missing or does not answer.
    AdbNotFound,
    /// The device bridge tool ran and reported a failure, with its diagnostics.
    AdbServerError(String),
    /// A port mapping that is not `<device_port>:<host_port>`; holds the input verbatim.
    InvalidPortMapping(String),
    /// The pairing code could not be rendered.
    QrCodeError(String),
    /// The discovery transport refused a request or its event stream failed.
    MdnsError(String),
    /// No connect announcement for the paired address came before the deadline.
    DiscoveryTimeout,
    /// A matching pairing announcement carried no IPv4 address.
    NoAddressResolved,
    /// No device is attached to the bridge.
    NoDevicesFound,
    /// A discovery session received an input that does not fit its state,
    /// or was ended before it reached a result.
    Interrupted,
    /// Any other failure, with its message.
    UnexpectedError(String),
}

} // verus!
