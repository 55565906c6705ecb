//! What crosses the boundary of the radio capability: the configuration
//! staged before a connection, and the networks that a scan reports.

use vstd::prelude::*;

verus! {

/// Bytes that the radio takes of a network name.
pub const MAX_SSID_BYTES: usize = 32;

/// Bytes that the radio takes of a password.
pub const MAX_PASSWORD_BYTES: usize = 64;

/// How a station proves itself to an access point.
#[derive(Debug, Clone, Copy, PartialEq, Eq, Structural)]
pub enum AuthMethod {
    /// No authentication at all.
    Open,
    WEP,
    WPA,
    WPA2Personal,
    WPAWPA2Personal,
    WPA2Enterprise,
    WPA3Personal,
    WPA2WPA3Personal,
    WAPIPersonal,
}

/// The settings of a station that joins one network.
#[derive(Debug)]
pub struct ClientConfiguration {
    pub ssid: String,
    pub password: String,
    /// The channel to connect on, where it is known.
    pub channel: Option<u8>,
    pub auth_method: AuthMethod,
}

/// A `ClientConfiguration` as contracts speak of it.
pub struct ClientConfigurationView {
    pub ssid: Seq<char>,
    pub password: Seq<char>,
    pub channel: Option<u8>,
    pub auth_method: AuthMethod,
}

impl ClientConfigurationView {
    /// The network name and the password are no longer, in UTF-8, than the
    /// radio takes them.
    pub open spec fn fits(self) -> bool {
        &&& vstd::utf8::encode_utf8(self.ssid).len() <= MAX_SSID_BYTES
        &&& vstd::utf8::encode_utf8(self.password).len() <= MAX_PASSWORD_BYTES
    }
}

impl View for ClientConfiguration {
    type V = ClientConfigurationView;

    open spec fn view(&self) -> ClientConfigurationView {
        ClientConfigurationView {
            ssid: self.ssid@,
            password: self.password@,
            channel: self.channel,
            auth_method: self.auth_method,
        }
    }
}

/// One network that a scan saw.
#[derive(Debug)]
pub struct AccessPointInfo {
    pub ssid: String,
    pub channel: u8,
}

/// An `AccessPointInfo` as contracts speak of it.
pub struct AccessPointInfoView {
    pub ssid: Seq<char>,
    pub channel: u8,
}

impl View for AccessPointInfo {
    type V = AccessPointInfoView;

    open spec fn view(&self) -> AccessPointInfoView {
        AccessPointInfoView { ssid: self.ssid@, channel: self.channel }
    }
}

/// The networks of a scan as contracts speak of them, in the order of the
/// scan.
pub open spec fn scan_view(access_points: Seq<AccessPointInfo>) -> Seq<AccessPointInfoView> {
    Seq::new(access_points.len(), |i: int| access_points[i]@)
}

} // verus!
