use vstd::prelude::*;

use crate::model::{Service, ServiceLocation};
use crate::row::{
    arrival_text, destination_text, location_status, origin_text, platform_text, row_of,
    service_row, status_text, time_text, ServiceRow,
};

verus! {

/// Width of the rules around the table header.
pub const TOTAL_WIDTH: usize = 90;

pub const TIME_WIDTH: usize = 6;

pub const EXPECTED_WIDTH: usize = 6;

pub const STATUS_WIDTH: usize = 10;

pub const PLATFORM_WIDTH: usize = 10;

pub const ARRIVAL_WIDTH: usize = 8;

pub const ORIGIN_WIDTH: usize = 20;

pub const DESTINATION_WIDTH: usize = 20;

/// `n` copies of `c`.
pub open spec fn repeat(c: char, n: nat) -> Seq<char> {
    Seq::new(n, |_i: int| c)
}

/// `s` padded with spaces on the right to at least `width` characters.
pub open spec fn padded(s: Seq<char>, width: nat) -> Seq<char> {
    if s.len() >= width {
        s
    } else {
        s + repeat(' ', (width - s.len()) as nat)
    }
}

/// The texts joined with one space between neighbours.
pub open spec fn joined(cells: Seq<Seq<char>>) -> Seq<char>
    decreases cells.len(),
{
    if cells.len() == 0 {
        Seq::empty()
    } else if cells.len() == 1 {
        cells[0]
    } else {
        joined(cells.drop_last()) + " "@ + cells.last()
    }
}

pub open spec fn digit_char(d: nat) -> char {
    ('0' as u32 + d) as char
}

/// `n` in decimal.
pub open spec fn decimal(n: nat) -> Seq<char>
    decreases n,
{
    if n < 10 {
        seq![digit_char(n)]
    } else {
        decimal(n / 10) + seq![digit_char(n % 10)]
    }
}

/// The line that precedes the table.
pub open spec fn summary_text(count: nat) -> Seq<char> {
    decimal(count) + " services found"@
}

pub open spec fn header_cells() -> Seq<Seq<char>> {
    seq![
        padded("Time"@, TIME_WIDTH as nat),
        padded("Exp."@, EXPECTED_WIDTH as nat),
        padded("Status"@, STATUS_WIDTH as nat),
        padded("Platform"@, PLATFORM_WIDTH as nat),
        padded("Arrival"@, ARRIVAL_WIDTH as nat),
        padded("Origin"@, ORIGIN_WIDTH as nat),
        padded("Destination"@, DESTINATION_WIDTH as nat),
    ]
}

/// The padded cells of the row shown for `loc`.
pub open spec fn location_cells(loc: ServiceLocation) -> Seq<Seq<char>> {
    seq![
        padded(time_text(loc.departure), TIME_WIDTH as nat),
        padded(time_text(loc.realtime_departure), EXPECTED_WIDTH as nat),
        padded(status_text(location_status(loc)), STATUS_WIDTH as nat),
        padded(platform_text(loc.platform), PLATFORM_WIDTH as nat),
        padded(arrival_text(loc), ARRIVAL_WIDTH as nat),
        padded(origin_text(loc), ORIGIN_WIDTH as nat),
        padded(destination_text(loc), DESTINATION_WIDTH as nat),
    ]
}

/// The line of the table shown for `loc`.
pub open spec fn location_line(loc: ServiceLocation) -> Seq<char> {
    joined(location_cells(loc))
}

pub open spec fn views(v: Seq<String>) -> Seq<Seq<char>> {
    v.map_values(|s: String| s@)
}

/// `c` repeated `width` times.
pub fn rule(c: &str, width: usize) -> (r: String)
    requires
        c@.len() == 1,
    ensures
        r@ == repeat(c@[0], width as nat),
{
    let mut r = String::new();
    let mut i: usize = 0;
    while i < width
        invariant
            i <= width,
            c@.len() == 1,
            r@ == repeat(c@[0], i as nat),
        decreases width - i,
    {
        r.append(c);
        i = i + 1;
        assert(r@ =~= repeat(c@[0], i as nat));
    }
    r
}

/// `s` padded with spaces on the right to at least `width` characters, as
/// `{:width}` formats it.
pub fn pad(s: &str, width: usize) -> (r: String)
    ensures
        r@ == padded(s@, width as nat),
{
    let n = s.unicode_len();
    let mut r = String::from_str(s);
    if n >= width {
        return r;
    }
    let mut i: usize = n;
    proof {
        reveal_strlit(" ");
        assert(r@ =~= s@ + repeat(' ', 0));
    }
    while i < width
        invariant
            n <= i <= width,
            n == s@.len(),
            r@ == s@ + repeat(' ', (i - n) as nat),
        decreases width - i,
    {
        proof {
            reveal_strlit(" ");
        }
        r.append(" ");
        i = i + 1;
        assert(r@ =~= s@ + repeat(' ', (i - n) as nat));
    }
    r
}

/// The cells joined with one space between neighbours.
pub fn join_cells(cells: &Vec<String>) -> (r: String)
    ensures
        r@ == joined(views(cells@)),
{
    let mut r = String::new();
    let mut i: usize = 0;
    while i < cells.len()
        invariant
            i <= cells@.len(),
            r@ == joined(views(cells@).take(i as int)),
        decreases cells@.len() - i,
    {
        let ghost before = views(cells@).take(i as int);
        let ghost after = views(cells@).take(i + 1);
        assert(after.drop_last() =~= before);
        if i > 0 {
            r.append(" ");
        }
        r.append(cells[i].as_str());
        i = i + 1;
        proof {
            assert(r@ =~= joined(after));
        }
    }
    assert(views(cells@).take(cells@.len() as int) =~= views(cells@));
    r
}

/// The decimal text of one digit.
fn digit_text(d: usize) -> (r: &'static str)
    requires
        d < 10,
    ensures
        r@ == seq![digit_char(d as nat)],
{
    proof {
        reveal_strlit("0");
        reveal_strlit("1");
        reveal_strlit("2");
        reveal_strlit("3");
        reveal_strlit("4");
        reveal_strlit("5");
        reveal_strlit("6");
        reveal_strlit("7");
        reveal_strlit("8");
        reveal_strlit("9");
    }
    match d {
        0 => "0",
        1 => "1",
        2 => "2",
        3 => "3",
        4 => "4",
        5 => "5",
        6 => "6",
        7 => "7",
        8 => "8",
        _ => "9",
    }
}

/// `n` in decimal.
pub fn decimal_text(n: usize) -> (r: String)
    ensures
        r@ == decimal(n as nat),
    decreases n,
{
    if n < 10 {
        String::from_str(digit_text(n))
    } else {
        let mut r = decimal_text(n / 10);
        r.append(digit_text(n % 10));
        r
    }
}

/// The line that precedes the table: `<count> services found`.
pub fn summary_line(count: usize) -> (r: String)
    ensures
        r@ == summary_text(count as nat),
{
    decimal_text(count).concat(" services found")
}

/// The header line of the table.
pub fn header_line() -> (r: String)
    ensures
        r@ == joined(header_cells()),
{
    let mut cells: Vec<String> = Vec::new();
    cells.push(pad("Time", TIME_WIDTH));
    cells.push(pad("Exp.", EXPECTED_WIDTH));
    cells.push(pad("Status", STATUS_WIDTH));
    cells.push(pad("Platform", PLATFORM_WIDTH));
    cells.push(pad("Arrival", ARRIVAL_WIDTH));
    cells.push(pad("Origin", ORIGIN_WIDTH));
    cells.push(pad("Destination", DESTINATION_WIDTH));
    assert(views(cells@) =~= header_cells());
    join_cells(&cells)
}

/// The padded cells of a row, left to right: Time, Expected, Status,
/// Platform, Arrival, Origin, Destination.
pub fn row_cells(row: &ServiceRow) -> (r: Vec<String>)
    ensures
        views(r@) == seq![
            padded(row.time@, TIME_WIDTH as nat),
            padded(row.expected@, EXPECTED_WIDTH as nat),
            padded(status_text(row.status), STATUS_WIDTH as nat),
            padded(row.platform@, PLATFORM_WIDTH as nat),
            padded(row.arrival@, ARRIVAL_WIDTH as nat),
            padded(row.origin@, ORIGIN_WIDTH as nat),
            padded(row.destination@, DESTINATION_WIDTH as nat),
        ],
{
    let mut cells: Vec<String> = Vec::new();
    cells.push(pad(row.time.as_str(), TIME_WIDTH));
    cells.push(pad(row.expected.as_str(), EXPECTED_WIDTH));
    cells.push(pad(row.status.text().as_str(), STATUS_WIDTH));
    cells.push(pad(row.platform.as_str(), PLATFORM_WIDTH));
    cells.push(pad(row.arrival.as_str(), ARRIVAL_WIDTH));
    cells.push(pad(row.origin.as_str(), ORIGIN_WIDTH));
    cells.push(pad(row.destination.as_str(), DESTINATION_WIDTH));
    assert(views(cells@) =~= seq![
        padded(row.time@, TIME_WIDTH as nat),
        padded(row.expected@, EXPECTED_WIDTH as nat),
        padded(status_text(row.status), STATUS_WIDTH as nat),
        padded(row.platform@, PLATFORM_WIDTH as nat),
        padded(row.arrival@, ARRIVAL_WIDTH as nat),
        padded(row.origin@, ORIGIN_WIDTH as nat),
        padded(row.destination@, DESTINATION_WIDTH as nat),
    ]);
    cells
}

/// The table line shown for `service`.
pub fn service_line(service: &Service) -> (r: String)
    ensures
        r@ == location_line(service.location),
{
    let row = service_row(service);
    let cells = row_cells(&row);
    assert(views(cells@) =~= location_cells(service.location));
    join_cells(&cells)
}

/// The lines written before the rows of a table of `count` services: the
/// count, a rule of `=`, the header, and a rule of `-`.
pub fn table_head(count: usize) -> (r: Vec<String>)
    ensures
        r@.len() == 4,
        r@[0]@ == summary_text(count as nat),
        r@[1]@ == repeat('=', TOTAL_WIDTH as nat),
        r@[2]@ == joined(header_cells()),
        r@[3]@ == repeat('-', TOTAL_WIDTH as nat),
{
    proof {
        reveal_strlit("=");
        reveal_strlit("-");
    }
    let mut lines: Vec<String> = Vec::new();
    lines.push(summary_line(count));
    lines.push(rule("=", TOTAL_WIDTH));
    lines.push(header_line());
    lines.push(rule("-", TOTAL_WIDTH));
    lines
}

/// The whole table for `services`, as plain text: the lines of `table_head`,
/// then one row per service, in the order given.
pub fn render(services: &Vec<Service>) -> (r: Vec<String>)
    ensures
        r@.len() == services@.len() + 4,
        r@[0]@ == summary_text(services@.len()),
        r@[1]@ == repeat('=', TOTAL_WIDTH as nat),
        r@[2]@ == joined(header_cells()),
        r@[3]@ == repeat('-', TOTAL_WIDTH as nat),
        forall|i: int|
            0 <= i < services@.len() ==> #[trigger] r@[i + 4]@ == location_line(
                services@[i].location,
            ),
{
    let mut lines = table_head(services.len());
    let mut i: usize = 0;
    while i < services.len()
        invariant
            i <= services@.len(),
            lines@.len() == i + 4,
            lines@[0]@ == summary_text(services@.len()),
            lines@[1]@ == repeat('=', TOTAL_WIDTH as nat),
            lines@[2]@ == joined(header_cells()),
            lines@[3]@ == repeat('-', TOTAL_WIDTH as nat),
            forall|j: int|
                0 <= j < i ==> #[trigger] lines@[j + 4]@ == location_line(services@[j].location),
        decreases services@.len() - i,
    {
        lines.push(service_line(&services[i]));
        i = i + 1;
    }
    lines
}

} // verus!
