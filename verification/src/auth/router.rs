//! The state behind the local sign-in server.
//!
//! The server hands a browser to the vendor's sign-in page, receives the
//! redirect URL that the page ends on, registers the device and keeps the
//! registration until the waiting caller claims it. This module is that
//! state and its transitions; serving HTTP is the caller's business.

use vstd::prelude::*;
use vstd::string::*;
use crate::auth::oauth::{
    auth_code_result, build_oauth_url, extract_auth_code, is_code_verifier, is_device_serial,
    oauth_url_text, url_query_pairs,
};
use crate::auth::register::{
    register_body, register_url_text, registration_from_reply, registration_request,
    registration_result, Registration, RegistrationReply, RegistrationRequest,
};
use crate::db::auth::PartialDevice;
use crate::error::{error_view, AppError, AppErrorView, ErrorKind};
use crate::localization::{by_country_code, find_by_country_code, locale_table};
use crate::system::now_timestamp;
use crate::text_map::TextMap;

verus! {

/// The route of the sign-in page.
pub open spec fn signin_route() -> Seq<char> {
    "/audible-signin"@
}

/// The route that receives the captured redirect URL.
pub open spec fn capture_route() -> Seq<char> {
    "/audible-signin/capture"@
}

/// The route of the page that ends a sign-in.
pub open spec fn success_route() -> Seq<char> {
    "/audible-signin/success"@
}

/// The address of the sign-in page on a local listener.
pub open spec fn signin_page_url_text(
    listener: Seq<char>,
    country_code: Seq<char>,
    device_id: Seq<char>,
) -> Seq<char> {
    "http://"@ + listener + signin_route() + "?country-code="@ + country_code + "&device-id="@
        + device_id
}

/// The view of the error for an unknown country code.
pub open spec fn locale_not_found_error() -> AppErrorView {
    error_view(ErrorKind::LocaleNotFound, "Country code not found"@)
}

/// The view of the error for a capture whose device is not pending.
pub open spec fn device_not_found_error() -> AppErrorView {
    error_view(ErrorKind::DeviceNotFound, "Device not found"@)
}

/// The view of the error for a claim that finds no registration.
pub open spec fn registration_not_found_error() -> AppErrorView {
    error_view(ErrorKind::DeviceNotFound, "No device registration found"@)
}

/// The address of the sign-in page that a browser is sent to.
pub fn signin_page_url(listener: &str, country_code: &str, device_id: &str) -> (url: String)
    ensures
        url@ == signin_page_url_text(listener@, country_code@, device_id@),
{
    let mut url = String::from_str("http://");
    url.append(listener);
    url.append("/audible-signin");
    url.append("?country-code=");
    url.append(country_code);
    url.append("&device-id=");
    url.append(device_id);
    url
}

/// What the sign-in page is rendered from.
#[derive(Debug)]
pub struct AudibleSignIn {
    /// The authorization URL that the page embeds.
    pub oauth_url: String,
    /// The serial of the device that is now pending.
    pub device_serial: String,
}

/// A device whose authorization code has arrived.
#[derive(Debug)]
pub struct CapturedDevice {
    pub authorization_code: String,
    pub device: PartialDevice,
}

/// The devices that wait for their authorization code and the
/// registrations that wait to be claimed, both by device serial.
#[derive(Debug)]
pub struct SignInServer {
    devices: TextMap<PartialDevice>,
    registrations: TextMap<Registration>,
}

impl SignInServer {
    #[verifier::type_invariant]
    spec fn serials_are_keys(&self) -> bool {
        &&& forall|serial: Seq<char>| #[trigger]
            self.devices@.dom().contains(serial) ==> self.devices@[serial].device_serial@
                == serial
        &&& forall|serial: Seq<char>| #[trigger]
            self.registrations@.dom().contains(serial)
                ==> self.registrations@[serial].device_serial@ == serial
    }

    /// The pending devices, by device serial.
    pub closed spec fn pending(&self) -> Map<Seq<char>, PartialDevice> {
        self.devices@
    }

    /// The registrations that await their claim, by device serial.
    pub closed spec fn registered(&self) -> Map<Seq<char>, Registration> {
        self.registrations@
    }

    /// Every pending device and every kept registration is filed under
    /// its own device serial. Calling this brings that fact into a proof.
    pub fn filed_by_serial(&self)
        ensures
            forall|serial: Seq<char>| #[trigger]
                self.pending().dom().contains(serial) ==> self.pending()[serial].device_serial@
                    == serial,
            forall|serial: Seq<char>| #[trigger]
                self.registered().dom().contains(serial)
                    ==> self.registered()[serial].device_serial@ == serial,
    {
        proof {
            use_type_invariant(self);
        }
    }

    /// A server with nothing pending and nothing registered.
    pub fn new() -> (server: SignInServer)
        ensures
            server.pending() == Map::<Seq<char>, PartialDevice>::empty(),
            server.registered() == Map::<Seq<char>, Registration>::empty(),
    {
        SignInServer { devices: TextMap::new(), registrations: TextMap::new() }
    }

    /// Whether a device is pending under `device_id`.
    pub fn is_pending(&self, device_id: &str) -> (pending: bool)
        ensures
            pending == self.pending().dom().contains(device_id@),
    {
        self.devices.contains_key(device_id)
    }

    /// Whether a registration is kept under `device_id`.
    pub fn is_registered(&self, device_id: &str) -> (registered: bool)
        ensures
            registered == self.registered().dom().contains(device_id@),
    {
        self.registrations.contains_key(device_id)
    }

    /// Serves the sign-in page: builds the authorization URL for the
    /// marketplace of `country_code` and files the device as pending
    /// under its serial, which is `device_id` where one is given and
    /// fresh otherwise.
    ///
    /// Fails with `LocaleNotFound`, and changes nothing, when the country
    /// code is unknown.
    pub fn audible_signin(&mut self, country_code: &str, device_id: Option<String>) -> (page:
        Result<AudibleSignIn, AppError>)
        ensures
            final(self).registered() == old(self).registered(),
            match by_country_code(locale_table(), country_code@, 0) {
                None => {
                    &&& page matches Err(e)
                    &&& e@ == locale_not_found_error()
                    &&& final(self).pending() == old(self).pending()
                },
                Some(locale) => {
                    &&& page matches Ok(p)
                    &&& match device_id {
                        Some(given) => p.device_serial@ == given@,
                        None => is_device_serial(p.device_serial@),
                    }
                    &&& final(self).pending().dom() == old(self).pending().dom().insert(
                        p.device_serial@,
                    )
                    &&& forall|serial: Seq<char>|
                        serial != p.device_serial@ && old(self).pending().dom().contains(serial)
                            ==> final(self).pending()[serial] == old(self).pending()[serial]
                    &&& {
                        let device = final(self).pending()[p.device_serial@];
                        &&& device.device_serial@ == p.device_serial@
                        &&& is_code_verifier(device.code_verifier@)
                        &&& device.oauth_url@ == p.oauth_url@
                        &&& device.country_code@ == locale.country_code
                        &&& device.domain@ == locale.domain
                        &&& device.market_place_id@ == locale.market_place_id
                        &&& p.oauth_url@ == oauth_url_text(
                            locale.country_code,
                            locale.domain,
                            locale.market_place_id,
                            device.device_serial@,
                            device.code_verifier@,
                            false,
                        )
                    }
                },
            },
    {
        proof {
            use_type_invariant(&*self);
        }
        let locale = match find_by_country_code(country_code) {
            Some(locale) => locale,
            None => {
                return Err(AppError::new(ErrorKind::LocaleNotFound, "Country code not found"));
            },
        };
        let built = build_oauth_url(
            locale.country_code.as_str(),
            locale.domain.as_str(),
            locale.market_place_id.as_str(),
            device_id,
            false,
        );
        let (oauth_url, code_verifier, device_serial) = match built {
            Ok(t) => t,
            Err(e) => {
                return Err(e);
            },
        };
        let device = PartialDevice {
            device_serial: device_serial.clone(),
            code_verifier,
            oauth_url: oauth_url.clone(),
            country_code: locale.country_code,
            domain: locale.domain,
            market_place_id: locale.market_place_id,
        };
        let mut devices: TextMap<PartialDevice> = TextMap::new();
        std::mem::swap(&mut devices, &mut self.devices);
        devices.insert(device_serial.clone(), device);
        self.devices = devices;
        Ok(AudibleSignIn { oauth_url, device_serial })
    }

    /// Receives the redirect URL that the browser captured for the device
    /// `device_id`: extracts the authorization code and takes the device
    /// out of the pending ones.
    ///
    /// Fails with `AuthorizationCodeMissing` when the URL carries no
    /// code, and with `DeviceNotFound` when no device is pending under
    /// `device_id`; either way nothing changes.
    pub fn begin_capture(&mut self, device_id: &str, response_url: &str) -> (captured: Result<
        CapturedDevice,
        AppError,
    >)
        ensures
            final(self).registered() == old(self).registered(),
            match auth_code_result(url_query_pairs(response_url@)) {
                Err(e) => {
                    &&& captured matches Err(got)
                    &&& got@ == e
                    &&& final(self).pending() == old(self).pending()
                },
                Ok(code) => if old(self).pending().dom().contains(device_id@) {
                    &&& captured matches Ok(c)
                    &&& c.authorization_code@ == code
                    &&& c.device == old(self).pending()[device_id@]
                    &&& c.device.device_serial@ == device_id@
                    &&& final(self).pending() == old(self).pending().remove(device_id@)
                } else {
                    &&& captured matches Err(got)
                    &&& got@ == device_not_found_error()
                    &&& final(self).pending() == old(self).pending()
                },
            },
    {
        proof {
            use_type_invariant(&*self);
        }
        let authorization_code = match extract_auth_code(response_url) {
            Ok(code) => code,
            Err(e) => {
                return Err(e);
            },
        };
        let mut devices: TextMap<PartialDevice> = TextMap::new();
        std::mem::swap(&mut devices, &mut self.devices);
        let taken = devices.remove(device_id);
        self.devices = devices;
        match taken {
            Some(device) => Ok(CapturedDevice { authorization_code, device }),
            None => {
                proof {
                    assert(final(self).pending() =~= old(self).pending());
                }
                Err(AppError::new(ErrorKind::DeviceNotFound, "Device not found"))
            },
        }
    }

    /// Ends a capture with the reply of the registration endpoint, read
    /// at time `now`: a registration is kept under the device's serial
    /// and the browser is sent to the success route; an error changes
    /// nothing.
    pub fn finish_capture_at(
        &mut self,
        captured: &CapturedDevice,
        reply: &RegistrationReply,
        now: i64,
    ) -> (redirect: Result<String, AppError>)
        ensures
            final(self).pending() == old(self).pending(),
            match registration_result(reply@, captured.device.device_serial@, now as int) {
                Ok(registration) => {
                    &&& redirect matches Ok(route)
                    &&& route@ == success_route()
                    &&& final(self).registered().dom() == old(self).registered().dom().insert(
                        captured.device.device_serial@,
                    )
                    &&& final(self).registered()[captured.device.device_serial@]@ == registration
                    &&& forall|serial: Seq<char>|
                        serial != captured.device.device_serial@ && old(
                            self,
                        ).registered().dom().contains(serial) ==> final(self).registered()[serial]
                            == old(self).registered()[serial]
                },
                Err(e) => {
                    &&& redirect matches Err(got)
                    &&& got@ == e
                    &&& final(self).registered() == old(self).registered()
                },
            },
    {
        proof {
            use_type_invariant(&*self);
        }
        let serial = captured.device.device_serial.as_str();
        match registration_from_reply(reply, serial, now) {
            Ok(registration) => {
                let mut registrations: TextMap<Registration> = TextMap::new();
                std::mem::swap(&mut registrations, &mut self.registrations);
                registrations.insert(String::from_str(serial), registration);
                self.registrations = registrations;
                Ok(String::from_str("/audible-signin/success"))
            },
            Err(e) => Err(e),
        }
    }

    /// Ends a capture with the reply of the registration endpoint, read
    /// now: what `finish_capture_at` does at the time the clock shows.
    pub fn finish_capture(&mut self, captured: &CapturedDevice, reply: &RegistrationReply) -> (redirect:
        Result<String, AppError>)
        ensures
            final(self).pending() == old(self).pending(),
            redirect matches Ok(route) ==> {
                &&& route@ == success_route()
                &&& final(self).registered().dom() == old(self).registered().dom().insert(
                    captured.device.device_serial@,
                )
                &&& exists|now: i64|
                    Ok::<crate::auth::register::RegistrationView, AppErrorView>(
                        final(self).registered()[captured.device.device_serial@]@,
                    ) == #[trigger] registration_result(
                        reply@,
                        captured.device.device_serial@,
                        now as int,
                    )
            },
            redirect matches Err(e) ==> {
                &&& final(self).registered() == old(self).registered()
                &&& exists|now: i64|
                    Err::<crate::auth::register::RegistrationView, AppErrorView>(e@)
                        == #[trigger] registration_result(
                        reply@,
                        captured.device.device_serial@,
                        now as int,
                    )
            },
    {
        let now = now_timestamp();
        self.finish_capture_at(captured, reply, now)
    }

    /// Gives up the sign-in of the device `device_id`: it is no longer
    /// pending. Says whether it was.
    pub fn abandon(&mut self, device_id: &str) -> (was_pending: bool)
        ensures
            final(self).registered() == old(self).registered(),
            final(self).pending() == old(self).pending().remove(device_id@),
            was_pending == old(self).pending().dom().contains(device_id@),
    {
        proof {
            use_type_invariant(&*self);
        }
        let mut devices: TextMap<PartialDevice> = TextMap::new();
        std::mem::swap(&mut devices, &mut self.devices);
        let taken = devices.remove(device_id);
        self.devices = devices;
        taken.is_some()
    }

    /// Hands out the registration kept under `device_id` and forgets it.
    ///
    /// Fails with `DeviceNotFound` when none is kept under that serial.
    pub fn take_registration(&mut self, device_id: &str) -> (claimed: Result<
        Registration,
        AppError,
    >)
        ensures
            final(self).pending() == old(self).pending(),
            final(self).registered() == old(self).registered().remove(device_id@),
            !final(self).registered().dom().contains(device_id@),
            if old(self).registered().dom().contains(device_id@) {
                &&& claimed matches Ok(registration)
                &&& registration == old(self).registered()[device_id@]
                &&& registration.device_serial@ == device_id@
            } else {
                &&& claimed matches Err(e)
                &&& e@ == registration_not_found_error()
            },
    {
        proof {
            use_type_invariant(&*self);
        }
        let mut registrations: TextMap<Registration> = TextMap::new();
        std::mem::swap(&mut registrations, &mut self.registrations);
        let taken = registrations.remove(device_id);
        self.registrations = registrations;
        match taken {
            Some(registration) => Ok(registration),
            None => Err(AppError::new(ErrorKind::DeviceNotFound, "No device registration found")),
        }
    }
}

/// The registration request for a captured device.
pub fn capture_request(captured: &CapturedDevice) -> (request: RegistrationRequest)
    ensures
        request.url@ == register_url_text(captured.device.domain@, false),
        request.body@ == register_body(
            captured.authorization_code@,
            captured.device.code_verifier@,
            captured.device.domain@,
            captured.device.device_serial@,
        ),
{
    registration_request(
        captured.authorization_code.as_str(),
        captured.device.code_verifier.as_str(),
        captured.device.domain.as_str(),
        captured.device.device_serial.as_str(),
        false,
    )
}

/// A registration can be claimed once: after a claim under a serial,
/// nothing is kept under it.
pub proof fn lemma_claimed_once(registered: Map<Seq<char>, Registration>, serial: Seq<char>)
    ensures
        !registered.remove(serial).dom().contains(serial),
        registered.remove(serial).remove(serial) == registered.remove(serial),
{
    assert(registered.remove(serial).remove(serial) =~= registered.remove(serial));
}

/// A registration that was kept under a serial is what a claim under
/// that serial finds, whatever else is kept.
pub proof fn lemma_kept_then_claimed(
    registered: Map<Seq<char>, Registration>,
    serial: Seq<char>,
    registration: Registration,
)
    ensures
        registered.insert(serial, registration).dom().contains(serial),
        registered.insert(serial, registration)[serial] == registration,
{
}

} // verus!
