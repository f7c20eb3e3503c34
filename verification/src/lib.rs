//! A bridge between a local telemetry byte stream and exactly one
//! peer reachable over a packet-oriented, multi-hop mesh network.
//!
//! The library holds the bridge core: discovery of the named peer via
//! broadcast advertisements, tracking of the single logical link,
//! fragmentation of local bytes to the mesh payload limit, delivery
//! of peer bytes back to the local endpoint, and recovery after link
//! loss.  The surrounding process supplies the mesh transport and the
//! local endpoint (a serial device or a UDP socket pair), runs the
//! loops, and hands every event to the step functions of this crate.
//!
//! Two bridge ends exist: [`Fc`] couples a serial device to the mesh,
//! [`Gc`] couples a UDP socket pair to it.  Both parameterize the one
//! core over their endpoint.

pub mod addr;
pub mod bridge;
pub mod fragment;
pub mod inbound;
pub mod outbound;
pub mod tracker;

use vstd::prelude::*;

use crate::addr::AddressParseError;
use crate::addr::PeerAddress;
use crate::addr::parse_peer_address;
use crate::addr::valid_address_hex;
use crate::addr::address_value;
use vstd::utf8::encode_utf8;

verus! {

/// The flight-controller end of the bridge: serial device on the
/// local side, the ground-control peer on the mesh side.
pub struct Fc {
    config: FcConfig,
}

/// The ground-control end of the bridge: UDP socket pair on the local
/// side, the flight-controller peer on the mesh side.
pub struct Gc {
    config: GcConfig,
}

/// Configuration of the ground-control end, as plain values.
pub struct GcConfig {
    /// Log verbosity, handed to the logger by the surrounding process.
    pub log_level: String,
    /// Address (host and port, as text) the ground-control station
    /// listens on for peer-bound telemetry.
    pub qgc_udp_address: String,
    /// Local UDP port this end binds for replies.
    pub qgc_reply_port: u16,
    /// Hex-encoded address identifier of the flight-controller peer.
    pub fc_destination: String,
}

/// Configuration of the flight-controller end, as plain values.
pub struct FcConfig {
    /// Log verbosity, handed to the logger by the surrounding process.
    pub log_level: String,
    /// Path of the serial device carrying the telemetry stream.
    pub serial_port: String,
    /// Baud rate of the serial device.
    pub serial_baud: u32,
    /// Hex-encoded address identifier of the ground-control peer.
    pub gc_destination: String,
}

/// Failures of the ground-control end.
#[derive(Debug, PartialEq)]
pub enum GcError {
    /// The local UDP socket could not be used; carries the I/O
    /// error's message.
    IoError(String),
}

/// Failures of the flight-controller end.
#[derive(Debug, PartialEq)]
pub enum FcError {
    /// The serial device could not be opened; carries the device
    /// error's message.
    SerialDeviceError(String),
    /// The configured peer identifier was rejected by the mesh
    /// addressing rules.
    RnsError(AddressParseError),
}

impl Gc {
    /// The configuration this end was created with.
    pub closed spec fn spec_config(&self) -> GcConfig {
        self.config
    }

    /// Creates the ground-control end over its configuration.
    pub fn new(config: GcConfig) -> (gc: Self)
        ensures
            gc.spec_config() == config,
    {
        Gc { config }
    }

    /// The target peer parsed from the configured hex identifier,
    /// rejected before the bridge starts when malformed.
    pub fn target(&self) -> (r: Result<PeerAddress, AddressParseError>)
        ensures
            r is Ok <==> valid_address_hex(encode_utf8(self.spec_config().fc_destination@)),
            r matches Ok(a) ==> a.id == address_value(
                encode_utf8(self.spec_config().fc_destination@),
                32,
            ),
            r == Err::<PeerAddress, AddressParseError>(AddressParseError::TooShort) <==> encode_utf8(
                self.spec_config().fc_destination@,
            ).len() < 32,
    {
        parse_peer_address(self.config.fc_destination.as_str())
    }
}

impl Fc {
    /// The configuration this end was created with.
    pub closed spec fn spec_config(&self) -> FcConfig {
        self.config
    }

    /// Creates the flight-controller end over its configuration.
    pub fn new(config: FcConfig) -> (fc: Result<Self, ()>)
        ensures
            fc matches Ok(f) && f.spec_config() == config,
    {
        let fc = Fc { config };
        Ok(fc)
    }

    /// The target peer parsed from the configured hex identifier,
    /// rejected — as [`FcError::RnsError`] — before the bridge
    /// starts when malformed.
    pub fn target(&self) -> (r: Result<PeerAddress, FcError>)
        ensures
            r is Ok <==> valid_address_hex(encode_utf8(self.spec_config().gc_destination@)),
            r matches Ok(a) ==> a.id == address_value(
                encode_utf8(self.spec_config().gc_destination@),
                32,
            ),
            r matches Err(e) ==> e is RnsError,
            r == Err::<PeerAddress, FcError>(FcError::RnsError(AddressParseError::TooShort))
                <==> encode_utf8(self.spec_config().gc_destination@).len() < 32,
    {
        match parse_peer_address(self.config.gc_destination.as_str()) {
            Ok(a) => Ok(a),
            Err(e) => Err(FcError::RnsError(e)),
        }
    }
}

} // verus!
