use vstd::prelude::*;

use crate::model::{Service, ServiceLocation};

verus! {

/// Shown for a departure time that the API did not give.
pub const NOT_AVAILABLE: &'static str = "N/A";

/// Shown for a platform not yet announced.
pub const PLATFORM_TBA: &'static str = "TBA";

/// Shown for an origin or destination the API did not give.
pub const UNKNOWN: &'static str = "Unknown";

/// How a departure compares with its timetable.
#[derive(Clone, Copy, Debug, PartialEq, Eq, Structural)]
pub enum Status {
    OnTime,
    Unknown,
    Delayed,
}

/// The display category of a table cell, for an output that can colour it.
#[derive(Clone, Copy, Debug, PartialEq, Eq, Structural)]
pub enum Style {
    Plain,
    Blue,
    Green,
    Yellow,
    Red,
}

/// The text of a time column: the time itself, or `N/A` when absent.
pub open spec fn time_text(time: Option<String>) -> Seq<char> {
    match time {
        Some(t) => t@,
        None => NOT_AVAILABLE@,
    }
}

/// The status of a departure from the texts of its Time and Expected
/// columns. Equal texts come first, so two absent times (both `N/A`) count
/// as on time.
pub open spec fn spec_status(time: Seq<char>, expected: Seq<char>) -> Status {
    if time == expected {
        Status::OnTime
    } else if time == NOT_AVAILABLE@ || expected == NOT_AVAILABLE@ {
        Status::Unknown
    } else {
        Status::Delayed
    }
}

pub open spec fn status_text(status: Status) -> Seq<char> {
    match status {
        Status::OnTime => "On time"@,
        Status::Unknown => "Unknown"@,
        Status::Delayed => "Delayed"@,
    }
}

pub open spec fn platform_text(platform: Option<String>) -> Seq<char> {
    match platform {
        Some(p) => p@,
        None => PLATFORM_TBA@,
    }
}

/// The scheduled arrival at the service's destination: the public time of
/// its first destination station.
pub open spec fn arrival_text(loc: ServiceLocation) -> Seq<char> {
    if loc.destination@.len() > 0 {
        loc.destination@[0].public_time@
    } else {
        UNKNOWN@
    }
}

pub open spec fn origin_text(loc: ServiceLocation) -> Seq<char> {
    if loc.origin@.len() > 0 {
        loc.origin@[0].description@
    } else {
        UNKNOWN@
    }
}

pub open spec fn destination_text(loc: ServiceLocation) -> Seq<char> {
    if loc.destination@.len() > 0 {
        loc.destination@[0].description@
    } else {
        UNKNOWN@
    }
}

pub open spec fn location_status(loc: ServiceLocation) -> Status {
    spec_status(time_text(loc.departure), time_text(loc.realtime_departure))
}

/// The columns shown for one service, before padding.
pub struct ServiceRow {
    pub time: String,
    pub expected: String,
    pub status: Status,
    pub platform: String,
    pub arrival: String,
    pub origin: String,
    pub destination: String,
}

/// `row` holds the columns that `loc` is shown with.
pub open spec fn row_of(row: ServiceRow, loc: ServiceLocation) -> bool {
    &&& row.time@ == time_text(loc.departure)
    &&& row.expected@ == time_text(loc.realtime_departure)
    &&& row.status == location_status(loc)
    &&& row.platform@ == platform_text(loc.platform)
    &&& row.arrival@ == arrival_text(loc)
    &&& row.origin@ == origin_text(loc)
    &&& row.destination@ == destination_text(loc)
}

/// The text of a time column.
pub fn format_time(time: &Option<String>) -> (r: String)
    ensures
        r@ == time_text(*time),
{
    match time {
        Some(t) => t.clone(),
        None => String::from_str(NOT_AVAILABLE),
    }
}

/// Classifies a departure by the texts of its Time and Expected columns.
pub fn classify(time: &String, expected: &String) -> (r: Status)
    ensures
        r == spec_status(time@, expected@),
{
    let not_available = String::from_str(NOT_AVAILABLE);
    if *time == *expected {
        Status::OnTime
    } else if *time == not_available || *expected == not_available {
        Status::Unknown
    } else {
        Status::Delayed
    }
}

impl Status {
    /// The word shown in the Status column.
    pub fn text(&self) -> (r: String)
        ensures
            r@ == status_text(*self),
    {
        match self {
            Status::OnTime => String::from_str("On time"),
            Status::Unknown => String::from_str("Unknown"),
            Status::Delayed => String::from_str("Delayed"),
        }
    }

    /// The display category of the status: green when on time, yellow when
    /// unknown, red when delayed.
    pub fn style(&self) -> (r: Style)
        ensures
            r == (match self {
                Status::OnTime => Style::Green,
                Status::Unknown => Style::Yellow,
                Status::Delayed => Style::Red,
            }),
    {
        match self {
            Status::OnTime => Style::Green,
            Status::Unknown => Style::Yellow,
            Status::Delayed => Style::Red,
        }
    }
}

impl ServiceRow {
    /// The display category of each cell, in the order of the columns:
    /// the status by its own category, the platform blue, the rest plain.
    pub fn cell_styles(&self) -> (r: Vec<Style>)
        ensures
            r@ == seq![
                Style::Plain,
                Style::Plain,
                match self.status {
                    Status::OnTime => Style::Green,
                    Status::Unknown => Style::Yellow,
                    Status::Delayed => Style::Red,
                },
                Style::Blue,
                Style::Plain,
                Style::Plain,
                Style::Plain,
            ],
    {
        let mut r: Vec<Style> = Vec::new();
        r.push(Style::Plain);
        r.push(Style::Plain);
        r.push(self.status.style());
        r.push(Style::Blue);
        r.push(Style::Plain);
        r.push(Style::Plain);
        r.push(Style::Plain);
        assert(r@ =~= seq![
            Style::Plain,
            Style::Plain,
            match self.status {
                Status::OnTime => Style::Green,
                Status::Unknown => Style::Yellow,
                Status::Delayed => Style::Red,
            },
            Style::Blue,
            Style::Plain,
            Style::Plain,
            Style::Plain,
        ]);
        r
    }
}

/// The columns shown for `service`.
pub fn service_row(service: &Service) -> (r: ServiceRow)
    ensures
        row_of(r, service.location),
        service.location.platform is None ==> r.platform@ == PLATFORM_TBA@,
        service.location.origin@.len() == 0 ==> r.origin@ == UNKNOWN@,
        service.location.destination@.len() == 0 ==> r.destination@ == UNKNOWN@ && r.arrival@
            == UNKNOWN@,
{
    let loc = &service.location;
    let time = format_time(&loc.departure);
    let expected = match &loc.realtime_departure {
        Some(_) => format_time(&loc.realtime_departure),
        None => String::from_str(NOT_AVAILABLE),
    };
    let status = classify(&time, &expected);
    let platform = match &loc.platform {
        Some(p) => p.clone(),
        None => String::from_str(PLATFORM_TBA),
    };
    let (arrival, destination) = if loc.destination.len() > 0 {
        (loc.destination[0].public_time.clone(), loc.destination[0].description.clone())
    } else {
        (String::from_str(UNKNOWN), String::from_str(UNKNOWN))
    };
    let origin = if loc.origin.len() > 0 {
        loc.origin[0].description.clone()
    } else {
        String::from_str(UNKNOWN)
    };
    ServiceRow { time, expected, status, platform, arrival, origin, destination }
}

/// A service whose booked and live departure times are both given and
/// equal is on time.
pub proof fn lemma_equal_times_on_time(loc: ServiceLocation)
    requires
        loc.departure is Some,
        loc.realtime_departure is Some,
        loc.departure->0@ == loc.realtime_departure->0@,
    ensures
        location_status(loc) == Status::OnTime,
{
}

/// A service with exactly one of its booked and live departure times given
/// has an unknown status, unless that time reads `N/A` itself.
pub proof fn lemma_one_time_missing_unknown(loc: ServiceLocation)
    requires
        loc.departure is Some != loc.realtime_departure is Some,
        loc.departure is Some ==> loc.departure->0@ != NOT_AVAILABLE@,
        loc.realtime_departure is Some ==> loc.realtime_departure->0@ != NOT_AVAILABLE@,
    ensures
        location_status(loc) == Status::Unknown,
{
}

/// A service whose booked and live departure times are both given and
/// differ is delayed, unless one of them reads `N/A` itself.
pub proof fn lemma_different_times_delayed(loc: ServiceLocation)
    requires
        loc.departure is Some,
        loc.realtime_departure is Some,
        loc.departure->0@ != loc.realtime_departure->0@,
        loc.departure->0@ != NOT_AVAILABLE@,
        loc.realtime_departure->0@ != NOT_AVAILABLE@,
    ensures
        location_status(loc) == Status::Delayed,
{
}

/// A service with neither departure time given is classified on time: both
/// columns read `N/A`, and equal texts decide first.
pub proof fn lemma_no_times_on_time(loc: ServiceLocation)
    requires
        loc.departure is None,
        loc.realtime_departure is None,
    ensures
        location_status(loc) == Status::OnTime,
{
}

} // verus!
