use caldav_backend::Calendar;
use caldav_backend::CalendarRecord;
use caldav_backend::UpstreamError;
use caldav_backend::get_calendars;

fn sample_records() -> Vec<CalendarRecord> {
    vec![
        CalendarRecord {
            url: "https://caldav.example.com/dav/home/".to_string(),
            name: "Home".to_string(),
            color: Some("#ff0000".to_string()),
        },
        CalendarRecord {
            url: "https://caldav.example.com/dav/work/".to_string(),
            name: "Work".to_string(),
            color: None,
        },
    ]
}

#[test]
fn records_map_one_to_one_in_order() {
    let calendars = get_calendars(Ok(sample_records())).unwrap();
    assert_eq!(calendars.len(), 2);
    assert_eq!(calendars[0].url, "https://caldav.example.com/dav/home/");
    assert_eq!(calendars[0].name, "Home");
    assert_eq!(calendars[0].color, Some("#ff0000".to_string()));
    assert_eq!(calendars[1].url, "https://caldav.example.com/dav/work/");
    assert_eq!(calendars[1].name, "Work");
    assert_eq!(calendars[1].color, None);
}

#[test]
fn empty_fetch_gives_empty_listing() {
    let calendars = get_calendars(Ok(Vec::new())).unwrap();
    assert!(calendars.is_empty());
}

#[test]
fn conversion_keeps_every_field() {
    let records = sample_records();
    let calendar = Calendar::from(&records[0]);
    assert_eq!(calendar.url, records[0].url);
    assert_eq!(calendar.name, records[0].name);
    assert_eq!(calendar.color, records[0].color);
}

#[test]
fn failed_fetch_becomes_an_error_value_not_a_crash() {
    let result = get_calendars(Err(UpstreamError::Unavailable));
    assert_eq!(result.unwrap_err(), UpstreamError::Unavailable);
}

#[test]
fn each_failure_is_passed_through_unchanged() {
    for error in [UpstreamError::Unavailable, UpstreamError::Auth, UpstreamError::Parse] {
        let result = get_calendars(Err(error));
        assert_eq!(result.unwrap_err(), error);
    }
}

#[test]
fn unavailable_upstream_surfaces_as_bad_gateway() {
    assert_eq!(UpstreamError::Unavailable.status_code(), 502);
}

#[test]
fn rejected_credentials_surface_as_unauthorized() {
    assert_eq!(UpstreamError::Auth.status_code(), 401);
}

#[test]
fn unparsable_response_surfaces_as_bad_gateway() {
    assert_eq!(UpstreamError::Parse.status_code(), 502);
}

#[test]
fn error_messages_describe_the_failure() {
    assert_eq!(
        UpstreamError::Unavailable.message(),
        "upstream calendar server unavailable"
    );
    assert_eq!(
        UpstreamError::Auth.message(),
        "upstream calendar server rejected credentials"
    );
    assert_eq!(
        UpstreamError::Parse.message(),
        "upstream calendar response could not be parsed"
    );
}
