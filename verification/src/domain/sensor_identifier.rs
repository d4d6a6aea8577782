//! The composite key that names one measurement stream.

use vstd::prelude::*;

verus! {

/// The mathematical value of a `SensorIdentifier`: its three texts.
pub struct SensorKey {
    pub probe_id: Seq<char>,
    pub protocol: Seq<char>,
    pub probe_value_name: Seq<char>,
}

/// Names one measurement stream: which probe, heard through which protocol,
/// measuring what. Two identifiers are equal when their three texts are.
#[derive(Debug)]
pub struct SensorIdentifier {
    pub probe_id: String,
    pub protocol: String,
    pub probe_value_name: String,
}

impl View for SensorIdentifier {
    type V = SensorKey;

    open spec fn view(&self) -> SensorKey {
        SensorKey {
            probe_id: self.probe_id@,
            protocol: self.protocol@,
            probe_value_name: self.probe_value_name@,
        }
    }
}

impl SensorIdentifier {
    pub fn new(_probe_id: &str, _protocol: &str, _probe_value_name: &str) -> (id: SensorIdentifier)
        ensures
            id@ == (SensorKey {
                probe_id: _probe_id@,
                protocol: _protocol@,
                probe_value_name: _probe_value_name@,
            }),
    {
        SensorIdentifier {
            probe_id: _probe_id.to_owned(),
            protocol: _protocol.to_owned(),
            probe_value_name: _probe_value_name.to_owned(),
        }
    }
}

impl Clone for SensorIdentifier {
    fn clone(&self) -> (r: SensorIdentifier)
        ensures
            r@ == self@,
    {
        SensorIdentifier {
            probe_id: self.probe_id.clone(),
            protocol: self.protocol.clone(),
            probe_value_name: self.probe_value_name.clone(),
        }
    }
}

impl PartialEq for SensorIdentifier {
    fn eq(&self, other: &SensorIdentifier) -> (r: bool) {
        self.probe_id == other.probe_id && self.protocol == other.protocol
            && self.probe_value_name == other.probe_value_name
    }
}

impl vstd::std_specs::cmp::PartialEqSpecImpl for SensorIdentifier {
    open spec fn obeys_eq_spec() -> bool {
        true
    }

    open spec fn eq_spec(&self, other: &SensorIdentifier) -> bool {
        self@ == other@
    }
}

} // verus!
