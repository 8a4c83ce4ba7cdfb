use vstd::prelude::*;

verus! {

/// One end of a service: the station's display name and its public
/// (timetabled) clock time there, as the API writes it.
pub struct Station {
    pub description: String,
    pub public_time: String,
}

/// What the API reports of one service at the searched station. Every
/// field but the two station lists may be absent; the lists may be empty.
pub struct ServiceLocation {
    /// The booked (timetabled) departure time.
    pub departure: Option<String>,
    pub platform: Option<String>,
    /// The live, expected departure time.
    pub realtime_departure: Option<String>,
    pub destination: Vec<Station>,
    pub origin: Vec<Station>,
}

pub struct Service {
    pub location: ServiceLocation,
}

/// A decoded search response: the services in the order the API gave them.
pub struct ApiResponse {
    pub services: Vec<Service>,
}

/// A departure search: from `origin`, optionally only services calling at
/// `destination`. Station codes are passed on as given.
pub struct ServiceQuery {
    pub origin: String,
    pub destination: Option<String>,
}

/// The account used for HTTP Basic authentication.
pub struct Credentials {
    pub username: String,
    pub password: String,
}

} // verus!
