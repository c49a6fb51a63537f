use google_workspace_apis::events::{
    CalendarEventsClient, EventOrderBy, EventType, PaginationRequestTrait, TimeRequestTrait,
};
use google_workspace_apis::request::Method;
use google_workspace_apis::time::UtcTime;
use google_workspace_apis::types::{EventAttendee, EventDateTime, EventRequest};

fn param(b: &google_workspace_apis::request::QueryParams, key: &str) -> Option<String> {
    b.get(key).cloned()
}

fn day(date: &str) -> EventDateTime {
    EventDateTime { date: Some(date.to_string()), date_time: None, time_zone: None }
}

fn attendee(email: &str) -> EventAttendee {
    EventAttendee {
        id: String::new(),
        email: email.to_string(),
        display_name: String::new(),
        organizer: None,
        self_: None,
        resource: None,
        optional: None,
        response_status: String::new(),
        comment: String::new(),
        additional_guests: 0,
    }
}

#[test]
fn list_query_parameters_are_exactly_the_ones_set() {
    let t1 = UtcTime::from_timestamp(1_704_067_200, 0).unwrap();
    let t2 = UtcTime::from_timestamp(1_735_689_600, 0).unwrap();
    let b = CalendarEventsClient::new()
        .get_events("primary")
        .max_results(10)
        .time_min(t1)
        .time_max(t2)
        .event_type(EventType::Birthday);
    let ctx = b.request_context();
    assert_eq!(ctx.method, Method::Get);
    assert_eq!(ctx.url, "https://www.googleapis.com/calendar/v3/calendars/primary/events");
    assert_eq!(ctx.params.pairs().len(), 4);
    assert_eq!(param(&ctx.params, "maxResults"), Some("10".to_string()));
    assert_eq!(param(&ctx.params, "timeMin"), Some("2024-01-01T00:00:00+00:00".to_string()));
    assert_eq!(param(&ctx.params, "timeMax"), Some("2025-01-01T00:00:00+00:00".to_string()));
    assert_eq!(param(&ctx.params, "eventTypes"), Some("birthday".to_string()));
    assert!(b.event_payload().is_none());
}

#[test]
fn list_settings_write_their_parameters() {
    let b = CalendarEventsClient::new()
        .get_events("team@example.com")
        .order_by(EventOrderBy::StartTime)
        .single_events(true)
        .show_hidden_invitations(false)
        .max_attendees(-3)
        .page_token("tok")
        .query("lunch");
    let p = &b.request_context().params;
    assert_eq!(p.pairs().len(), 6);
    assert_eq!(param(p, "orderBy"), Some("startTime".to_string()));
    assert_eq!(param(p, "singleEvents"), Some("true".to_string()));
    assert_eq!(param(p, "showHiddenInvitations"), Some("false".to_string()));
    assert_eq!(param(p, "maxAttendees"), Some("-3".to_string()));
    assert_eq!(param(p, "pageToken"), Some("tok".to_string()));
    assert_eq!(param(p, "q"), Some("lunch".to_string()));
    assert_eq!(param(p, "maxResults"), None);
}

#[test]
fn list_parameter_set_twice_keeps_last_value() {
    let b = CalendarEventsClient::new()
        .get_events("primary")
        .max_results(10)
        .max_results(25)
        .max_results(5)
        .order_by(EventOrderBy::StartTime)
        .order_by(EventOrderBy::Updated);
    let p = &b.request_context().params;
    assert_eq!(p.pairs().len(), 2);
    assert_eq!(param(p, "maxResults"), Some("5".to_string()));
    assert_eq!(param(p, "orderBy"), Some("updated".to_string()));
}

#[test]
fn extreme_numbers_are_written_in_full() {
    let b = CalendarEventsClient::new().get_events("primary").max_results(i64::MIN).max_attendees(0);
    let p = &b.request_context().params;
    assert_eq!(param(p, "maxResults"), Some("-9223372036854775808".to_string()));
    assert_eq!(param(p, "maxAttendees"), Some("0".to_string()));
    let b = CalendarEventsClient::new()
        .patch_event("c", "e")
        .set_conference_data_version(i8::MIN)
        .set_max_attendees(i16::MAX);
    let p = &b.request_context().params;
    assert_eq!(param(p, "conferenceDataVersion"), Some("-128".to_string()));
    assert_eq!(param(p, "maxAttendees"), Some("32767".to_string()));
}

#[test]
fn time_range_with_fraction_of_second() {
    let t = UtcTime::from_timestamp(0, 500_000_000).unwrap();
    let b = CalendarEventsClient::new().get_events("primary").time_min(t);
    assert_eq!(
        param(&b.request_context().params, "timeMin"),
        Some("1970-01-01T00:00:00.500+00:00".to_string())
    );
}

#[test]
fn insert_with_only_start_and_end_sends_no_optional_field() {
    let b = CalendarEventsClient::new().insert_event("primary", day("2025-07-28"), day("2025-07-29"));
    let ctx = b.request_context();
    assert_eq!(ctx.method, Method::Post);
    assert_eq!(ctx.url, "https://www.googleapis.com/calendar/v3/calendars/primary/events");
    assert_eq!(ctx.params.pairs().len(), 0);
    match b.event_payload() {
        Some(EventRequest::Create(c)) => {
            assert_eq!(c.start.date, Some("2025-07-28".to_string()));
            assert_eq!(c.end.date, Some("2025-07-29".to_string()));
            assert!(c.summary.is_none());
            assert!(c.description.is_none());
            assert!(c.location.is_none());
            assert!(c.attendees.is_empty());
            assert!(c.recurrence.is_empty());
            assert!(c.reminders.is_none());
            assert!(c.extended_properties.is_none());
            assert!(c.event_type.is_none());
            assert!(c.ical_uid.is_none());
            assert!(c.color_id.is_none());
            assert!(c.sequence.is_none());
            assert!(c.working_location_properties.is_none());
        }
        _ => panic!("insert builder must carry a create payload"),
    }
}

#[test]
fn insert_setters_overwrite_and_replace_lists() {
    let b = CalendarEventsClient::new()
        .insert_event("primary", day("2025-07-28"), day("2025-07-28"))
        .set_summary("first")
        .set_summary("second")
        .set_attendees(vec![attendee("a@example.com"), attendee("b@example.com")])
        .set_attendees(vec![attendee("c@example.com")])
        .set_type(EventType::FocusTime)
        .set_guests_can_modify(true)
        .set_guests_can_modify(false)
        .set_ical_uid("uid-1");
    match b.event_payload() {
        Some(EventRequest::Create(c)) => {
            assert_eq!(c.summary, Some("second".to_string()));
            assert_eq!(c.attendees.len(), 1);
            assert_eq!(c.attendees[0].email, "c@example.com");
            assert_eq!(c.event_type, Some("focusTime".to_string()));
            assert_eq!(c.guests_can_modify, Some(false));
            assert_eq!(c.ical_uid, Some("uid-1".to_string()));
            assert!(c.description.is_none());
        }
        _ => panic!("insert builder must carry a create payload"),
    }
}

#[test]
fn patch_starts_empty_and_setters_overwrite() {
    let b = CalendarEventsClient::new().patch_event("primary", "ev1");
    assert_eq!(b.request_context().method, Method::Patch);
    assert_eq!(
        b.request_context().url,
        "https://www.googleapis.com/calendar/v3/calendars/primary/events/ev1"
    );
    match b.event_payload() {
        Some(EventRequest::Patch(p)) => {
            assert!(p.start.is_none() && p.end.is_none() && p.summary.is_none());
            assert!(p.attendees.is_empty() && p.recurrence.is_empty());
        }
        _ => panic!("patch builder must carry a patch payload"),
    }
    let b = b
        .set_summary("New summary")
        .set_summary("Newer summary")
        .set_recurrence(vec!["RRULE:FREQ=DAILY".to_string()])
        .set_recurrence(vec!["RRULE:FREQ=WEEKLY".to_string()])
        .set_sequence(3)
        .set_transparancy("transparent")
        .set_event_type(EventType::OutOfOffice)
        .set_end(day("2025-08-01"));
    match b.event_payload() {
        Some(EventRequest::Patch(p)) => {
            assert_eq!(p.summary, Some("Newer summary".to_string()));
            assert_eq!(p.recurrence, vec!["RRULE:FREQ=WEEKLY".to_string()]);
            assert_eq!(p.sequence, Some(3));
            assert_eq!(p.transparency, Some("transparent".to_string()));
            assert_eq!(p.event_type, Some("outOfOffice".to_string()));
            assert_eq!(p.end.as_ref().and_then(|e| e.date.clone()), Some("2025-08-01".to_string()));
            assert!(p.start.is_none());
            assert!(p.description.is_none());
        }
        _ => panic!("patch builder must carry a patch payload"),
    }
}

#[test]
fn patch_query_options() {
    let b = CalendarEventsClient::new()
        .patch_event("primary", "ev1")
        .set_send_updates("all")
        .set_send_updates("none")
        .set_conference_data_version(1)
        .support_attachments(true)
        .set_max_attendees(-7);
    let p = &b.request_context().params;
    assert_eq!(p.pairs().len(), 4);
    assert_eq!(param(p, "sendUpdates"), Some("none".to_string()));
    assert_eq!(param(p, "conferenceDataVersion"), Some("1".to_string()));
    assert_eq!(param(p, "supportAttachments"), Some("true".to_string()));
    assert_eq!(param(p, "maxAttendees"), Some("-7".to_string()));
}

#[test]
fn delete_targets_the_event() {
    let b = CalendarEventsClient::new()
        .delete_event("cal", "ev9")
        .send_updates("all")
        .send_updates("externalOnly");
    let ctx = b.request_context();
    assert_eq!(ctx.method, Method::Delete);
    assert_eq!(ctx.url, "https://www.googleapis.com/calendar/v3/calendars/cal/events/ev9");
    assert_eq!(ctx.params.pairs().len(), 1);
    assert_eq!(param(&ctx.params, "sendUpdates"), Some("externalOnly".to_string()));
    assert!(b.event_payload().is_none());
}

#[test]
fn enum_wire_names() {
    assert_eq!(EventOrderBy::StartTime.as_str(), "startTime");
    assert_eq!(EventOrderBy::Updated.as_str(), "updated");
    assert_eq!(EventType::Birthday.as_str(), "birthday");
    assert_eq!(EventType::Default.as_str(), "default");
    assert_eq!(EventType::FocusTime.as_str(), "focusTime");
    assert_eq!(EventType::FromGmail.as_str(), "fromGmail");
    assert_eq!(EventType::OutOfOffice.as_str(), "outOfOffice");
    assert_eq!(EventType::WorkingLocation.as_str(), "workingLocation");
    assert_eq!(Method::Patch.as_str(), "PATCH");
    assert!(Method::Post.sends_body() && Method::Patch.sends_body());
    assert!(!Method::Get.sends_body() && !Method::Delete.sends_body());
}

#[test]
fn utc_time_range_and_leap_seconds() {
    assert!(UtcTime::from_timestamp(59, 1_500_000_000).is_some());
    assert!(UtcTime::from_timestamp(58, 1_000_000_000).is_none());
    assert!(UtcTime::from_timestamp(-1, 1_000_000_000).is_some());
    assert!(UtcTime::from_timestamp(0, 2_000_000_000).is_none());
    assert!(UtcTime::from_timestamp(8_210_266_876_799, 0).is_some());
    assert!(UtcTime::from_timestamp(8_210_266_876_800, 0).is_none());
    assert!(UtcTime::from_timestamp(-8_334_601_228_800, 0).is_some());
    assert!(UtcTime::from_timestamp(-8_334_601_228_801, 0).is_none());
    let t = UtcTime::from_timestamp(-8_334_601_228_800, 0).unwrap();
    assert_eq!(t.timestamp(), -8_334_601_228_800);
    assert_eq!(t.timestamp_subsec_nanos(), 0);
    assert_eq!(t.to_rfc3339(), "-262143-01-01T00:00:00+00:00");
    let t = UtcTime::from_timestamp(8_210_266_876_799, 0).unwrap();
    assert_eq!(t.to_rfc3339(), "+262142-12-31T23:59:59+00:00");
}
