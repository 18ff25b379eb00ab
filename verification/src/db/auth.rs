//! The record of a device whose sign-in has begun.

use vstd::prelude::*;
use vstd::string::*;

verus! {

/// A device that was sent to the sign-in page and has not come back yet:
/// what is needed to register it once its authorization code arrives.
#[derive(Clone, Debug)]
pub struct PartialDevice {
    pub device_serial: String,
    pub code_verifier: String,
    pub oauth_url: String,
    pub country_code: String,
    pub domain: String,
    pub market_place_id: String,
}

/// The mathematical value of a [`PartialDevice`].
pub struct PartialDeviceView {
    pub device_serial: Seq<char>,
    pub code_verifier: Seq<char>,
    pub oauth_url: Seq<char>,
    pub country_code: Seq<char>,
    pub domain: Seq<char>,
    pub market_place_id: Seq<char>,
}

impl View for PartialDevice {
    type V = PartialDeviceView;

    open spec fn view(&self) -> PartialDeviceView {
        PartialDeviceView {
            device_serial: self.device_serial@,
            code_verifier: self.code_verifier@,
            oauth_url: self.oauth_url@,
            country_code: self.country_code@,
            domain: self.domain@,
            market_place_id: self.market_place_id@,
        }
    }
}

} // verus!
