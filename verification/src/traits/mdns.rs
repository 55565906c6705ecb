//! What crosses the boundary of the discovery capability.

use vstd::prelude::*;

verus! {

/// The address family that an answer came over.
#[derive(Debug, Clone, Copy, PartialEq, Eq, Structural)]
pub enum Protocol {
    V4,
    V6,
}

/// The network interface that an answer came over.
#[derive(Debug, Clone, Copy, PartialEq, Eq, Structural)]
pub enum Interface {
    STA,
    AP,
    ETH,
}

/// One service that the device advertises. It carries no text records.
#[derive(Debug)]
pub struct ServiceRecord {
    pub instance_name: String,
    pub service_type: String,
    pub proto: String,
    pub port: u16,
}

/// A `ServiceRecord` as contracts speak of it.
pub struct ServiceRecordView {
    pub instance_name: Seq<char>,
    pub service_type: Seq<char>,
    pub proto: Seq<char>,
    pub port: u16,
}

impl View for ServiceRecord {
    type V = ServiceRecordView;

    open spec fn view(&self) -> ServiceRecordView {
        ServiceRecordView {
            instance_name: self.instance_name@,
            service_type: self.service_type@,
            proto: self.proto@,
            port: self.port,
        }
    }
}

} // verus!
