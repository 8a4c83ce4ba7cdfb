use rtt_departures::{
    basic_authorization, build_request, classify, credentials_from, decimal_text, format_time,
    header_line, join_cells, pad, prepare_fetch, render, row_cells, rule, search_url,
    service_line, service_row, summary_line, table_head, Credentials, FetchError, Service,
    ServiceLocation, ServiceQuery, Station, Status, Style, TOTAL_WIDTH,
};

fn text(s: &str) -> Option<String> {
    Some(s.to_string())
}

fn station(description: &str, public_time: &str) -> Station {
    Station { description: description.to_string(), public_time: public_time.to_string() }
}

fn service(
    departure: Option<String>,
    realtime: Option<String>,
    platform: Option<String>,
    destination: Vec<Station>,
    origin: Vec<Station>,
) -> Service {
    Service {
        location: ServiceLocation {
            departure,
            platform,
            realtime_departure: realtime,
            destination,
            origin,
        },
    }
}

fn bristol_service() -> Service {
    service(
        text("1000"),
        text("1000"),
        text("4"),
        vec![station("Bristol Temple Meads", "1130")],
        vec![station("London Paddington", "1000")],
    )
}

fn query(origin: &str, destination: Option<&str>) -> ServiceQuery {
    ServiceQuery { origin: origin.to_string(), destination: destination.map(|d| d.to_string()) }
}

#[test]
fn url_without_destination() {
    let url = search_url(&query("PAD", None));
    assert_eq!(url, "https://api.rtt.io/api/v1/json/search/PAD");
}

#[test]
fn url_with_destination() {
    let url = search_url(&query("PAD", Some("BRI")));
    assert_eq!(url, "https://api.rtt.io/api/v1/json/search/PAD/to/BRI");
}

#[test]
fn equal_times_are_on_time() {
    let row = service_row(&service(text("0915"), text("0915"), None, vec![], vec![]));
    assert_eq!(row.status, Status::OnTime);
}

#[test]
fn missing_live_time_is_unknown() {
    let row = service_row(&service(text("0915"), None, None, vec![], vec![]));
    assert_eq!(row.expected, "N/A");
    assert_eq!(row.status, Status::Unknown);
}

#[test]
fn missing_booked_time_is_unknown() {
    let row = service_row(&service(None, text("0917"), None, vec![], vec![]));
    assert_eq!(row.time, "N/A");
    assert_eq!(row.status, Status::Unknown);
}

#[test]
fn different_times_are_delayed() {
    let row = service_row(&service(text("0915"), text("0921"), None, vec![], vec![]));
    assert_eq!(row.status, Status::Delayed);
}

#[test]
fn no_times_are_on_time() {
    let row = service_row(&service(None, None, None, vec![], vec![]));
    assert_eq!(row.time, "N/A");
    assert_eq!(row.expected, "N/A");
    assert_eq!(row.status, Status::OnTime);
}

#[test]
fn literal_not_available_time_compares_as_text() {
    assert_eq!(classify(&"N/A".to_string(), &"N/A".to_string()), Status::OnTime);
    assert_eq!(classify(&"N/A".to_string(), &"1000".to_string()), Status::Unknown);
    assert_eq!(classify(&"1000".to_string(), &"N/A".to_string()), Status::Unknown);
}

#[test]
fn missing_fields_fall_back() {
    let row = service_row(&service(text("0915"), text("0915"), None, vec![], vec![]));
    assert_eq!(row.platform, "TBA");
    assert_eq!(row.origin, "Unknown");
    assert_eq!(row.destination, "Unknown");
    assert_eq!(row.arrival, "Unknown");
}

#[test]
fn first_station_is_shown() {
    let row = service_row(&service(
        text("0915"),
        text("0915"),
        text("2"),
        vec![station("Reading", "0940"), station("Swindon", "1005")],
        vec![station("Oxford", "0850"), station("Didcot", "0905")],
    ));
    assert_eq!(row.arrival, "0940");
    assert_eq!(row.destination, "Reading");
    assert_eq!(row.origin, "Oxford");
    assert_eq!(row.platform, "2");
}

#[test]
fn empty_response_renders_no_rows() {
    let lines = render(&vec![]);
    assert_eq!(lines.len(), 4);
    assert_eq!(lines[0], "0 services found");
}

#[test]
fn single_service_row() {
    let row = service_row(&bristol_service());
    assert_eq!(row.time, "1000");
    assert_eq!(row.expected, "1000");
    assert_eq!(row.status, Status::OnTime);
    assert_eq!(row.status.text(), "On time");
    assert_eq!(row.platform, "4");
    assert_eq!(row.arrival, "1130");
    assert_eq!(row.origin, "London Paddington");
    assert_eq!(row.destination, "Bristol Temple Meads");

    let lines = render(&vec![bristol_service()]);
    assert_eq!(lines.len(), 5);
    assert_eq!(lines[0], "1 services found");
    let expected = format!(
        "{:6} {:6} {:10} {:10} {:8} {:20} {:20}",
        "1000", "1000", "On time", "4", "1130", "London Paddington", "Bristol Temple Meads"
    );
    assert_eq!(lines[4], expected);
    assert_eq!(service_line(&bristol_service()), expected);
}

#[test]
fn rows_keep_response_order() {
    let services = vec![
        service(text("0900"), text("0905"), text("1"), vec![], vec![]),
        bristol_service(),
    ];
    let lines = render(&services);
    assert_eq!(lines.len(), 6);
    assert_eq!(lines[0], "2 services found");
    assert!(lines[4].starts_with("0900   0905   Delayed    1 "));
    assert!(lines[5].starts_with("1000   1000   On time    4 "));
}

#[test]
fn table_head_lines() {
    let head = table_head(12);
    assert_eq!(head.len(), 4);
    assert_eq!(head[0], "12 services found");
    assert_eq!(head[1], "=".repeat(TOTAL_WIDTH));
    assert_eq!(head[2], header_line());
    assert_eq!(head[3], "-".repeat(TOTAL_WIDTH));
    assert_eq!(
        header_line(),
        format!(
            "{:6} {:6} {:10} {:10} {:8} {:20} {:20}",
            "Time", "Exp.", "Status", "Platform", "Arrival", "Origin", "Destination"
        )
    );
}

#[test]
fn padding_and_rules() {
    assert_eq!(pad("ab", 5), "ab   ");
    assert_eq!(pad("abcdef", 3), "abcdef");
    assert_eq!(pad("", 0), "");
    assert_eq!(pad("é", 3), "é  ");
    assert_eq!(rule("=", 3), "===");
    assert_eq!(rule("-", 0), "");
}

#[test]
fn decimal_counts() {
    assert_eq!(decimal_text(0), "0");
    assert_eq!(decimal_text(7), "7");
    assert_eq!(decimal_text(10), "10");
    assert_eq!(decimal_text(1234), "1234");
    assert_eq!(decimal_text(usize::MAX), usize::MAX.to_string());
    assert_eq!(summary_line(3), "3 services found");
}

#[test]
fn cells_join_with_single_spaces() {
    assert_eq!(join_cells(&vec![]), "");
    assert_eq!(join_cells(&vec!["a".to_string()]), "a");
    assert_eq!(join_cells(&vec!["a ".to_string(), "b".to_string(), "c".to_string()]), "a  b c");
}

#[test]
fn row_cells_and_styles() {
    let row = service_row(&service(text("0900"), text("0905"), None, vec![], vec![]));
    let cells = row_cells(&row);
    assert_eq!(cells.len(), 7);
    assert_eq!(cells[2], "Delayed   ");
    assert_eq!(cells[3], "TBA       ");
    assert_eq!(
        row.cell_styles(),
        vec![
            Style::Plain,
            Style::Plain,
            Style::Red,
            Style::Blue,
            Style::Plain,
            Style::Plain,
            Style::Plain
        ]
    );
    assert_eq!(Status::OnTime.style(), Style::Green);
    assert_eq!(Status::Unknown.style(), Style::Yellow);
    assert_eq!(Status::Delayed.style(), Style::Red);
}

#[test]
fn format_time_falls_back() {
    assert_eq!(format_time(&None), "N/A");
    assert_eq!(format_time(&text("1234")), "1234");
}

#[test]
fn basic_authorization_encodes_pair() {
    let creds = Credentials { username: "user".to_string(), password: "pass".to_string() };
    assert_eq!(basic_authorization(&creds), "Basic dXNlcjpwYXNz");
    let creds = Credentials { username: "a".to_string(), password: "".to_string() };
    assert_eq!(basic_authorization(&creds), "Basic YTo=");
}

#[test]
fn request_carries_url_and_header() {
    let creds = Credentials { username: "user".to_string(), password: "pass".to_string() };
    let req = match build_request(&query("PAD", Some("BRI")), &creds) {
        Ok(r) => r,
        Err(_) => panic!("request should build"),
    };
    assert_eq!(req.url, "https://api.rtt.io/api/v1/json/search/PAD/to/BRI");
    assert_eq!(req.authorization, "Basic dXNlcjpwYXNz");
    assert_eq!(req.auth_header.to_str().unwrap(), "Basic dXNlcjpwYXNz");
}

#[test]
fn missing_credentials_stop_before_request() {
    match prepare_fetch(&query("PAD", None), None, None) {
        Err(FetchError::MissingCredential(v)) => assert_eq!(v, "RTT_USERNAME"),
        _ => panic!("expected a missing user name"),
    }
    match prepare_fetch(&query("PAD", None), text("user"), None) {
        Err(FetchError::MissingCredential(v)) => assert_eq!(v, "RTT_PASSWORD"),
        _ => panic!("expected a missing password"),
    }
    match prepare_fetch(&query("PAD", None), None, text("pass")) {
        Err(FetchError::MissingCredential(v)) => assert_eq!(v, "RTT_USERNAME"),
        _ => panic!("expected a missing user name"),
    }
}

#[test]
fn credentials_taken_when_both_present() {
    match credentials_from(text("user"), text("secret")) {
        Ok(c) => {
            assert_eq!(c.username, "user");
            assert_eq!(c.password, "secret");
        },
        Err(_) => panic!("credentials should be accepted"),
    }
    match prepare_fetch(&query("KGX", None), text("user"), text("pass")) {
        Ok(req) => {
            assert_eq!(req.url, "https://api.rtt.io/api/v1/json/search/KGX");
            assert_eq!(req.authorization, "Basic dXNlcjpwYXNz");
        },
        Err(_) => panic!("request should be prepared"),
    }
}

#[test]
fn error_messages() {
    let e = FetchError::MissingCredential("RTT_USERNAME".to_string());
    assert_eq!(e.message(), "RTT_USERNAME environment variable not set");
    assert_eq!(
        FetchError::InvalidAuthHeader.message(),
        "credentials do not form a valid header value"
    );
    assert_eq!(
        FetchError::Transport("connection refused".to_string()).message(),
        "request failed: connection refused"
    );
    assert_eq!(
        FetchError::Decode("missing field `services`".to_string()).message(),
        "could not decode response: missing field `services`"
    );
}
