//! Departure-board queries against a rail-timetable web API: building the
//! authenticated search request, and turning the decoded services into the
//! rows of a fixed-width departure table.
pub mod auth;
pub mod model;
pub mod query;
pub mod row;
pub mod table;

pub use auth::basic_authorization;
pub use model::{ApiResponse, Credentials, Service, ServiceLocation, ServiceQuery, Station};
pub use query::{
    build_request, credentials_from, prepare_fetch, search_url, FetchError, FetchRequest, API_BASE,
    PASSWORD_VAR, USERNAME_VAR,
};
pub use row::{
    classify, format_time, service_row, ServiceRow, Status, Style, NOT_AVAILABLE, PLATFORM_TBA,
    UNKNOWN,
};
pub use table::{
    decimal_text, header_line, join_cells, pad, render, row_cells, rule, service_line,
    summary_line, table_head, ARRIVAL_WIDTH, DESTINATION_WIDTH, EXPECTED_WIDTH, ORIGIN_WIDTH,
    PLATFORM_WIDTH, STATUS_WIDTH, TIME_WIDTH, TOTAL_WIDTH,
};
