use std::marker::PhantomData;
use vstd::prelude::*;

use crate::request::{param_set, Method, QueryParams, RequestContext};
use crate::text::{bool_text, bool_to_text, decimal, i64_text};
use crate::time::{rfc3339_text, UtcTime};
use crate::types::{
    BirthdayProperties, CreateEventRequest, EventAttendee, EventDateTime, EventField,
    EventReminders, EventRequest, EventSource, ExtendedProperties, OutOfOfficeProperties,
    PatchEventRequest, WorkingLocationProperties,
};

verus! {

/// Mode of a builder that has not been pointed at an operation yet.
pub struct Uninitialized;

/// Mode of a builder that fetches a single event. No operation leads to it yet.
pub struct EventGetMode;

/// Mode of a builder that lists the events of a calendar.
pub struct EventListMode;

/// Mode of a builder that deletes an event.
pub struct EventDeleteMode;

/// Mode of a builder that creates an event.
pub struct EventInsertMode;

/// Mode of a builder that changes fields of an existing event.
pub struct EventPatchMode;

/// The URL of the events of calendar `calendar_id`.
pub open spec fn events_url(calendar_id: Seq<char>) -> Seq<char> {
    "https://www.googleapis.com/calendar/v3/calendars/"@ + calendar_id + "/events"@
}

/// The URL of event `event_id` of calendar `calendar_id`.
pub open spec fn event_url(calendar_id: Seq<char>, event_id: Seq<char>) -> Seq<char> {
    events_url(calendar_id) + "/"@ + event_id
}

/// Whether a payload is one that creates an event.
pub open spec fn has_create(p: Option<EventRequest>) -> bool {
    p matches Some(EventRequest::Create(_))
}

/// Whether a payload is one that changes an event.
pub open spec fn has_patch(p: Option<EventRequest>) -> bool {
    p matches Some(EventRequest::Patch(_))
}

/// The create payload held in `p`.
pub open spec fn create_of(p: Option<EventRequest>) -> CreateEventRequest {
    p->Some_0->Create_0
}

/// The change payload held in `p`.
pub open spec fn patch_of(p: Option<EventRequest>) -> PatchEventRequest {
    p->Some_0->Patch_0
}

/// `new` is `old` with field `f` of its create payload changed and every other field
/// kept; a payload that creates nothing is kept as it is.
pub open spec fn create_field_set(new: Option<EventRequest>, old: Option<EventRequest>, f: EventField) -> bool {
    if has_create(old) {
        has_create(new) && create_of(new).agrees_except(&create_of(old), f)
    } else {
        new == old
    }
}

/// `new` is `old` with field `f` of its change payload changed and every other field
/// kept; a payload that changes nothing is kept as it is.
pub open spec fn patch_field_set(new: Option<EventRequest>, old: Option<EventRequest>, f: EventField) -> bool {
    if has_patch(old) {
        has_patch(new) && patch_of(new).agrees_except(&patch_of(old), f)
    } else {
        new == old
    }
}

/// Whether an optional text holds exactly `t`.
pub open spec fn text_is(o: Option<String>, t: Seq<char>) -> bool {
    o matches Some(s) && s@ == t
}

/// Setting one field of a create payload twice leaves only the second value in effect:
/// the result agrees with the first payload in every other field.
pub proof fn lemma_create_field_last_wins(
    before: Option<EventRequest>,
    once: Option<EventRequest>,
    twice: Option<EventRequest>,
    f: EventField,
)
    requires
        create_field_set(once, before, f),
        create_field_set(twice, once, f),
    ensures
        create_field_set(twice, before, f),
{
}

/// Setting one field of a change payload twice leaves only the second value in effect:
/// the result agrees with the first payload in every other field.
pub proof fn lemma_patch_field_last_wins(
    before: Option<EventRequest>,
    once: Option<EventRequest>,
    twice: Option<EventRequest>,
    f: EventField,
)
    requires
        patch_field_set(once, before, f),
        patch_field_set(twice, once, f),
    ensures
        patch_field_set(twice, before, f),
{
}

/// Builder of a request on the events of a calendar. Its mode `T` decides which settings
/// it offers and what sending it returns.
pub struct CalendarEventsClient<T = Uninitialized> {
    request: RequestContext,
    event: Option<EventRequest>,
    _mode: PhantomData<T>,
}

/// What a builder holds, for stating what its settings do.
pub trait RequestBuilder {
    /// The verb, URL and query parameters gathered so far.
    spec fn context(&self) -> RequestContext;

    /// The payload that goes with the request, if any.
    spec fn payload(&self) -> Option<EventRequest>;
}

impl<T> RequestBuilder for CalendarEventsClient<T> {
    closed spec fn context(&self) -> RequestContext {
        self.request
    }

    closed spec fn payload(&self) -> Option<EventRequest> {
        self.event
    }
}

/// Paging through results: how many per page, and which page.
pub trait PaginationRequestTrait: RequestBuilder + Sized {
    /// Returns at most `max` results per page.
    fn max_results(self, max: i64) -> (r: Self)
        ensures
            param_set(r.context(), self.context(), "maxResults"@, decimal(max as int)),
            r.payload() == self.payload(),
    ;

    /// Returns the page that `token`, from an earlier page, names.
    fn page_token(self, token: &str) -> (r: Self)
        ensures
            param_set(r.context(), self.context(), "pageToken"@, token@),
            r.payload() == self.payload(),
    ;
}

/// Restricting results to a span of time.
pub trait TimeRequestTrait: RequestBuilder + Sized {
    /// Leaves out events that end at or before `time_min`.
    fn time_min(self, time_min: UtcTime) -> (r: Self)
        ensures
            param_set(r.context(), self.context(), "timeMin"@,
                rfc3339_text(time_min.seconds(), time_min.subsec_nanos())),
            r.payload() == self.payload(),
    ;

    /// Leaves out events that start at or after `time_max`.
    fn time_max(self, time_max: UtcTime) -> (r: Self)
        ensures
            param_set(r.context(), self.context(), "timeMax"@,
                rfc3339_text(time_max.seconds(), time_max.subsec_nanos())),
            r.payload() == self.payload(),
    ;
}

impl<T> CalendarEventsClient<T> {
    /// The verb, URL and query parameters gathered so far.
    pub fn request_context(&self) -> (r: &RequestContext)
        ensures
            *r == self.context(),
    {
        &self.request
    }

    /// The payload that goes with the request, if any.
    pub fn event_payload(&self) -> (r: Option<&EventRequest>)
        ensures
            r is Some <==> self.payload() is Some,
            r matches Some(e) ==> *e == self.payload()->Some_0,
    {
        match &self.event {
            Some(e) => Some(e),
            None => None,
        }
    }

    /// The same request with query parameter `key` set to `value`.
    fn with_param(self, key: &str, value: String) -> (r: CalendarEventsClient<T>)
        ensures
            param_set(r.context(), self.context(), key@, value@),
            r.payload() == self.payload(),
    {
        let CalendarEventsClient { request, event, _mode } = self;
        CalendarEventsClient { request: request.with_param(key, value), event, _mode }
    }

    /// The same request and payload in another mode.
    fn into_mode<U>(self, method: Method, url: String, event: Option<EventRequest>) -> (r: CalendarEventsClient<U>)
        ensures
            r.context().method == method,
            r.context().url == url,
            r.context().params == self.context().params,
            r.payload() == event,
    {
        let CalendarEventsClient { request, event: _, _mode } = self;
        let RequestContext { method: _, url: _, params } = request;
        CalendarEventsClient { request: RequestContext { method, url, params }, event, _mode: PhantomData }
    }
}

impl CalendarEventsClient<Uninitialized> {
    /// A builder with no operation chosen yet, no query parameters and no payload.
    pub fn new() -> (r: Self)
        ensures
            r.context().method == Method::Get,
            r.context().url@ == Seq::<char>::empty(),
            r.context().params@ == Map::<Seq<char>, Seq<char>>::empty(),
            r.payload() is None,
    {
        CalendarEventsClient {
            request: RequestContext { method: Method::Get, url: String::new(), params: QueryParams::new() },
            event: None,
            _mode: PhantomData,
        }
    }

    /// Lists the events of calendar `calendar_id`.
    pub fn get_events(self, calendar_id: &str) -> (r: CalendarEventsClient<EventListMode>)
        ensures
            r.context().method == Method::Get,
            r.context().url@ == events_url(calendar_id@),
            r.context().params == self.context().params,
            r.payload() is None,
    {
        let url = calendar_events_url(calendar_id);
        self.into_mode(Method::Get, url, None)
    }

    /// Creates an event from `start` to `end` in calendar `calendar_id`, with every other
    /// field unset until a setting gives it.
    pub fn insert_event(self, calendar_id: &str, start: EventDateTime, end: EventDateTime) -> (r:
        CalendarEventsClient<EventInsertMode>)
        ensures
            r.context().method == Method::Post,
            r.context().url@ == events_url(calendar_id@),
            r.context().params == self.context().params,
            has_create(r.payload()),
            create_of(r.payload()).start == start,
            create_of(r.payload()).end == end,
            create_of(r.payload()).sent_fields() == set![EventField::Start, EventField::End],
    {
        let url = calendar_events_url(calendar_id);
        let event = CreateEventRequest::new(start, end);
        self.into_mode(Method::Post, url, Some(EventRequest::Create(event)))
    }

    /// Changes event `event_id` of calendar `calendar_id`; no field is changed until a
    /// setting names it.
    pub fn patch_event(self, calendar_id: &str, event_id: &str) -> (r: CalendarEventsClient<EventPatchMode>)
        ensures
            r.context().method == Method::Patch,
            r.context().url@ == event_url(calendar_id@, event_id@),
            r.context().params == self.context().params,
            has_patch(r.payload()),
            patch_of(r.payload()).sent_fields() == Set::<EventField>::empty(),
    {
        let url = calendar_event_url(calendar_id, event_id);
        let event = PatchEventRequest::new();
        self.into_mode(Method::Patch, url, Some(EventRequest::Patch(event)))
    }

    /// Deletes event `event_id` of calendar `calendar_id`.
    pub fn delete_event(self, calendar_id: &str, event_id: &str) -> (r: CalendarEventsClient<EventDeleteMode>)
        ensures
            r.context().method == Method::Delete,
            r.context().url@ == event_url(calendar_id@, event_id@),
            r.context().params == self.context().params,
            r.payload() is None,
    {
        let url = calendar_event_url(calendar_id, event_id);
        self.into_mode(Method::Delete, url, None)
    }
}

fn calendar_events_url(calendar_id: &str) -> (r: String)
    ensures
        r@ == events_url(calendar_id@),
{
    let mut url = String::from_str("https://www.googleapis.com/calendar/v3/calendars/");
    url.append(calendar_id);
    url.append("/events");
    url
}

fn calendar_event_url(calendar_id: &str, event_id: &str) -> (r: String)
    ensures
        r@ == event_url(calendar_id@, event_id@),
{
    let mut url = calendar_events_url(calendar_id);
    url.append("/");
    url.append(event_id);
    url
}

/// The order in which listed events come.
/// `StartTime` applies to single events only: set `single_events(true)` with it.
#[derive(Clone, Copy, Debug, PartialEq, Eq, Structural)]
pub enum EventOrderBy {
    StartTime,
    Updated,
}

/// The wire name of an ordering.
pub open spec fn order_by_name(o: EventOrderBy) -> Seq<char> {
    match o {
        EventOrderBy::StartTime => "startTime"@,
        EventOrderBy::Updated => "updated"@,
    }
}

impl EventOrderBy {
    pub fn as_str(&self) -> (r: &'static str)
        ensures
            r@ == order_by_name(*self),
    {
        match self {
            EventOrderBy::StartTime => "startTime",
            EventOrderBy::Updated => "updated",
        }
    }
}

/// The kinds of event, for filtering a list and for typing a new event.
#[derive(Clone, Copy, Debug, PartialEq, Eq, Structural)]
pub enum EventType {
    Birthday,
    Default,
    FocusTime,
    FromGmail,
    OutOfOffice,
    WorkingLocation,
}

/// The wire name of a kind of event.
pub open spec fn event_type_name(t: EventType) -> Seq<char> {
    match t {
        EventType::Birthday => "birthday"@,
        EventType::Default => "default"@,
        EventType::FocusTime => "focusTime"@,
        EventType::FromGmail => "fromGmail"@,
        EventType::OutOfOffice => "outOfOffice"@,
        EventType::WorkingLocation => "workingLocation"@,
    }
}

impl EventType {
    pub fn as_str(&self) -> (r: &'static str)
        ensures
            r@ == event_type_name(*self),
    {
        match self {
            EventType::Birthday => "birthday",
            EventType::Default => "default",
            EventType::FocusTime => "focusTime",
            EventType::FromGmail => "fromGmail",
            EventType::OutOfOffice => "outOfOffice",
            EventType::WorkingLocation => "workingLocation",
        }
    }
}

impl PaginationRequestTrait for CalendarEventsClient<EventListMode> {
    fn max_results(self, max: i64) -> (r: Self) {
        self.with_param("maxResults", i64_text(max))
    }

    fn page_token(self, token: &str) -> (r: Self) {
        self.with_param("pageToken", String::from_str(token))
    }
}

impl TimeRequestTrait for CalendarEventsClient<EventListMode> {
    fn time_min(self, time_min: UtcTime) -> (r: Self) {
        self.with_param("timeMin", time_min.to_rfc3339())
    }

    fn time_max(self, time_max: UtcTime) -> (r: Self) {
        self.with_param("timeMax", time_max.to_rfc3339())
    }
}

impl CalendarEventsClient<EventListMode> {
    /// Lists only events of kind `type_`.
    pub fn event_type(self, type_: EventType) -> (r: Self)
        ensures
            param_set(r.context(), self.context(), "eventTypes"@, event_type_name(type_)),
            r.payload() == self.payload(),
    {
        self.with_param("eventTypes", String::from_str(type_.as_str()))
    }

    /// Orders the events by `by`.
    pub fn order_by(self, by: EventOrderBy) -> (r: Self)
        ensures
            param_set(r.context(), self.context(), "orderBy"@, order_by_name(by)),
            r.payload() == self.payload(),
    {
        self.with_param("orderBy", String::from_str(by.as_str()))
    }

    /// Includes at most `max` attendees of each event.
    pub fn max_attendees(self, max: i64) -> (r: Self)
        ensures
            param_set(r.context(), self.context(), "maxAttendees"@, decimal(max as int)),
            r.payload() == self.payload(),
    {
        self.with_param("maxAttendees", i64_text(max))
    }

    /// With `true`, expands recurring events into their single occurrences.
    pub fn single_events(self, single: bool) -> (r: Self)
        ensures
            param_set(r.context(), self.context(), "singleEvents"@, bool_text(single)),
            r.payload() == self.payload(),
    {
        self.with_param("singleEvents", bool_to_text(single))
    }

    /// With `true`, includes hidden invitations.
    pub fn show_hidden_invitations(self, show: bool) -> (r: Self)
        ensures
            param_set(r.context(), self.context(), "showHiddenInvitations"@, bool_text(show)),
            r.payload() == self.payload(),
    {
        self.with_param("showHiddenInvitations", bool_to_text(show))
    }

    /// Lists only events that match `query_str` in their summary, description, location
    /// or attendees.
    pub fn query(self, query_str: &str) -> (r: Self)
        ensures
            param_set(r.context(), self.context(), "q"@, query_str@),
            r.payload() == self.payload(),
    {
        self.with_param("q", String::from_str(query_str))
    }
}

impl CalendarEventsClient<EventInsertMode> {
    /// Sets the summary (title) of the new event.
    pub fn set_summary(self, summary: &str) -> (r: Self)
        ensures
            r.context() == self.context(),
            create_field_set(r.payload(), self.payload(), EventField::Summary),
            has_create(self.payload()) ==> text_is(create_of(r.payload()).summary, summary@),
    {
        let CalendarEventsClient { request, event, _mode } = self;
        let event = match event {
            Some(EventRequest::Create(mut e)) => {
                e.summary = Some(String::from_str(summary));
                Some(EventRequest::Create(e))
            }
            other => other,
        };
        CalendarEventsClient { request, event, _mode }
    }

    /// Sets the description of the new event.
    pub fn set_description(self, descr: &str) -> (r: Self)
        ensures
            r.context() == self.context(),
            create_field_set(r.payload(), self.payload(), EventField::Description),
            has_create(self.payload()) ==> text_is(create_of(r.payload()).description, descr@),
    {
        let CalendarEventsClient { request, event, _mode } = self;
        let event = match event {
            Some(EventRequest::Create(mut e)) => {
                e.description = Some(String::from_str(descr));
                Some(EventRequest::Create(e))
            }
            other => other,
        };
        CalendarEventsClient { request, event, _mode }
    }

    /// Sets the location of the new event, as free text.
    pub fn set_location(self, location: &str) -> (r: Self)
        ensures
            r.context() == self.context(),
            create_field_set(r.payload(), self.payload(), EventField::Location),
            has_create(self.payload()) ==> text_is(create_of(r.payload()).location, location@),
    {
        let CalendarEventsClient { request, event, _mode } = self;
        let event = match event {
            Some(EventRequest::Create(mut e)) => {
                e.location = Some(String::from_str(location));
                Some(EventRequest::Create(e))
            }
            other => other,
        };
        CalendarEventsClient { request, event, _mode }
    }

    /// Sets the guests of the new event, replacing any given before.
    pub fn set_attendees(self, attendees: Vec<EventAttendee>) -> (r: Self)
        ensures
            r.context() == self.context(),
            create_field_set(r.payload(), self.payload(), EventField::Attendees),
            has_create(self.payload()) ==> create_of(r.payload()).attendees == attendees,
    {
        let CalendarEventsClient { request, event, _mode } = self;
        let event = match event {
            Some(EventRequest::Create(mut e)) => {
                e.attendees = attendees;
                Some(EventRequest::Create(e))
            }
            other => other,
        };
        CalendarEventsClient { request, event, _mode }
    }

    /// Sets the kind of the new event.
    pub fn set_type(self, type_: EventType) -> (r: Self)
        ensures
            r.context() == self.context(),
            create_field_set(r.payload(), self.payload(), EventField::EventType),
            has_create(self.payload()) ==> text_is(create_of(r.payload()).event_type, event_type_name(type_)),
    {
        let CalendarEventsClient { request, event, _mode } = self;
        let event = match event {
            Some(EventRequest::Create(mut e)) => {
                e.event_type = Some(String::from_str(type_.as_str()));
                Some(EventRequest::Create(e))
            }
            other => other,
        };
        CalendarEventsClient { request, event, _mode }
    }

    /// Sets the birthday settings of the new event.
    pub fn set_birtday_properties(self, birtday_properties: BirthdayProperties) -> (r: Self)
        ensures
            r.context() == self.context(),
            create_field_set(r.payload(), self.payload(), EventField::BirthdayProperties),
            has_create(self.payload()) ==> create_of(r.payload()).birthday_properties == Some(birtday_properties),
    {
        let CalendarEventsClient { request, event, _mode } = self;
        let event = match event {
            Some(EventRequest::Create(mut e)) => {
                e.birthday_properties = Some(birtday_properties);
                Some(EventRequest::Create(e))
            }
            other => other,
        };
        CalendarEventsClient { request, event, _mode }
    }

    /// Sets the color of the new event.
    pub fn set_color_id(self, color_id: &str) -> (r: Self)
        ensures
            r.context() == self.context(),
            create_field_set(r.payload(), self.payload(), EventField::ColorId),
            has_create(self.payload()) ==> text_is(create_of(r.payload()).color_id, color_id@),
    {
        let CalendarEventsClient { request, event, _mode } = self;
        let event = match event {
            Some(EventRequest::Create(mut e)) => {
                e.color_id = Some(String::from_str(color_id));
                Some(EventRequest::Create(e))
            }
            other => other,
        };
        CalendarEventsClient { request, event, _mode }
    }

    /// Sets whether guests may invite others to the new event.
    pub fn set_guests_can_invite_others(self, can_invite: bool) -> (r: Self)
        ensures
            r.context() == self.context(),
            create_field_set(r.payload(), self.payload(), EventField::GuestsCanInviteOthers),
            has_create(self.payload()) ==> create_of(r.payload()).guests_can_invite_others == Some(can_invite),
    {
        let CalendarEventsClient { request, event, _mode } = self;
        let event = match event {
            Some(EventRequest::Create(mut e)) => {
                e.guests_can_invite_others = Some(can_invite);
                Some(EventRequest::Create(e))
            }
            other => other,
        };
        CalendarEventsClient { request, event, _mode }
    }

    /// Sets whether guests may change the new event.
    pub fn set_guests_can_modify(self, can_modify: bool) -> (r: Self)
        ensures
            r.context() == self.context(),
            create_field_set(r.payload(), self.payload(), EventField::GuestsCanModify),
            has_create(self.payload()) ==> create_of(r.payload()).guests_can_modify == Some(can_modify),
    {
        let CalendarEventsClient { request, event, _mode } = self;
        let event = match event {
            Some(EventRequest::Create(mut e)) => {
                e.guests_can_modify = Some(can_modify);
                Some(EventRequest::Create(e))
            }
            other => other,
        };
        CalendarEventsClient { request, event, _mode }
    }

    /// Sets whether guests may see the other guests of the new event.
    pub fn set_guests_can_see_other_guests(self, can_see: bool) -> (r: Self)
        ensures
            r.context() == self.context(),
            create_field_set(r.payload(), self.payload(), EventField::GuestsCanSeeOtherGuests),
            has_create(self.payload()) ==> create_of(r.payload()).guests_can_see_other_guests == Some(can_see),
    {
        let CalendarEventsClient { request, event, _mode } = self;
        let event = match event {
            Some(EventRequest::Create(mut e)) => {
                e.guests_can_see_other_guests = Some(can_see);
                Some(EventRequest::Create(e))
            }
            other => other,
        };
        CalendarEventsClient { request, event, _mode }
    }

    /// Sets the identifier of the new event.
    pub fn set_id(self, id: &str) -> (r: Self)
        ensures
            r.context() == self.context(),
            create_field_set(r.payload(), self.payload(), EventField::Id),
            has_create(self.payload()) ==> text_is(create_of(r.payload()).id, id@),
    {
        let CalendarEventsClient { request, event, _mode } = self;
        let event = match event {
            Some(EventRequest::Create(mut e)) => {
                e.id = Some(String::from_str(id));
                Some(EventRequest::Create(e))
            }
            other => other,
        };
        CalendarEventsClient { request, event, _mode }
    }

    /// Sets the iCalendar UID of the new event, which other calendars use to recognise it.
    pub fn set_ical_uid(self, ical_uid: &str) -> (r: Self)
        ensures
            r.context() == self.context(),
            create_field_set(r.payload(), self.payload(), EventField::ICalUid),
            has_create(self.payload()) ==> text_is(create_of(r.payload()).ical_uid, ical_uid@),
    {
        let CalendarEventsClient { request, event, _mode } = self;
        let event = match event {
            Some(EventRequest::Create(mut e)) => {
                e.ical_uid = Some(String::from_str(ical_uid));
                Some(EventRequest::Create(e))
            }
            other => other,
        };
        CalendarEventsClient { request, event, _mode }
    }

    /// Sets the out-of-office settings of the new event.
    pub fn set_out_of_office_properties(self, out_of_office_properties: OutOfOfficeProperties) -> (r: Self)
        ensures
            r.context() == self.context(),
            create_field_set(r.payload(), self.payload(), EventField::OutOfOfficeProperties),
            has_create(self.payload()) ==> create_of(r.payload()).out_of_office_properties == Some(out_of_office_properties),
    {
        let CalendarEventsClient { request, event, _mode } = self;
        let event = match event {
            Some(EventRequest::Create(mut e)) => {
                e.out_of_office_properties = Some(out_of_office_properties);
                Some(EventRequest::Create(e))
            }
            other => other,
        };
        CalendarEventsClient { request, event, _mode }
    }

    /// Sets the recurrence rules (RFC 5545 lines) of the new event, replacing any given before.
    pub fn set_recurrence(self, recurrence: Vec<String>) -> (r: Self)
        ensures
            r.context() == self.context(),
            create_field_set(r.payload(), self.payload(), EventField::Recurrence),
            has_create(self.payload()) ==> create_of(r.payload()).recurrence == recurrence,
    {
        let CalendarEventsClient { request, event, _mode } = self;
        let event = match event {
            Some(EventRequest::Create(mut e)) => {
                e.recurrence = recurrence;
                Some(EventRequest::Create(e))
            }
            other => other,
        };
        CalendarEventsClient { request, event, _mode }
    }

    /// Sets whether the new event blocks time: `opaque` or `transparent`.
    pub fn set_transparency(self, transparency: &str) -> (r: Self)
        ensures
            r.context() == self.context(),
            create_field_set(r.payload(), self.payload(), EventField::Transparency),
            has_create(self.payload()) ==> text_is(create_of(r.payload()).transparency, transparency@),
    {
        let CalendarEventsClient { request, event, _mode } = self;
        let event = match event {
            Some(EventRequest::Create(mut e)) => {
                e.transparency = Some(String::from_str(transparency));
                Some(EventRequest::Create(e))
            }
            other => other,
        };
        CalendarEventsClient { request, event, _mode }
    }

    /// Sets the reminders of the new event.
    pub fn set_reminders(self, reminders: EventReminders) -> (r: Self)
        ensures
            r.context() == self.context(),
            create_field_set(r.payload(), self.payload(), EventField::Reminders),
            has_create(self.payload()) ==> create_of(r.payload()).reminders == Some(reminders),
    {
        let CalendarEventsClient { request, event, _mode } = self;
        let event = match event {
            Some(EventRequest::Create(mut e)) => {
                e.reminders = Some(reminders);
                Some(EventRequest::Create(e))
            }
            other => other,
        };
        CalendarEventsClient { request, event, _mode }
    }

    /// Sets the key and value pairs stored on the new event.
    pub fn set_extended_properties(self, extended_properties: ExtendedProperties) -> (r: Self)
        ensures
            r.context() == self.context(),
            create_field_set(r.payload(), self.payload(), EventField::ExtendedProperties),
            has_create(self.payload()) ==> create_of(r.payload()).extended_properties == Some(extended_properties),
    {
        let CalendarEventsClient { request, event, _mode } = self;
        let event = match event {
            Some(EventRequest::Create(mut e)) => {
                e.extended_properties = Some(extended_properties);
                Some(EventRequest::Create(e))
            }
            other => other,
        };
        CalendarEventsClient { request, event, _mode }
    }

}

impl CalendarEventsClient<EventPatchMode> {
    /// Changes the end of the event.
    pub fn set_end(self, end: EventDateTime) -> (r: Self)
        ensures
            r.context() == self.context(),
            patch_field_set(r.payload(), self.payload(), EventField::End),
            has_patch(self.payload()) ==> patch_of(r.payload()).end == Some(end),
    {
        let CalendarEventsClient { request, event, _mode } = self;
        let event = match event {
            Some(EventRequest::Patch(mut e)) => {
                e.end = Some(end);
                Some(EventRequest::Patch(e))
            }
            other => other,
        };
        CalendarEventsClient { request, event, _mode }
    }

    /// Changes the start of the event.
    pub fn set_start(self, start: EventDateTime) -> (r: Self)
        ensures
            r.context() == self.context(),
            patch_field_set(r.payload(), self.payload(), EventField::Start),
            has_patch(self.payload()) ==> patch_of(r.payload()).start == Some(start),
    {
        let CalendarEventsClient { request, event, _mode } = self;
        let event = match event {
            Some(EventRequest::Patch(mut e)) => {
                e.start = Some(start);
                Some(EventRequest::Patch(e))
            }
            other => other,
        };
        CalendarEventsClient { request, event, _mode }
    }

    /// Changes the summary (title) of the event.
    pub fn set_summary(self, summary: &str) -> (r: Self)
        ensures
            r.context() == self.context(),
            patch_field_set(r.payload(), self.payload(), EventField::Summary),
            has_patch(self.payload()) ==> text_is(patch_of(r.payload()).summary, summary@),
    {
        let CalendarEventsClient { request, event, _mode } = self;
        let event = match event {
            Some(EventRequest::Patch(mut e)) => {
                e.summary = Some(String::from_str(summary));
                Some(EventRequest::Patch(e))
            }
            other => other,
        };
        CalendarEventsClient { request, event, _mode }
    }

    /// Changes the description of the event.
    pub fn set_description(self, descr: &str) -> (r: Self)
        ensures
            r.context() == self.context(),
            patch_field_set(r.payload(), self.payload(), EventField::Description),
            has_patch(self.payload()) ==> text_is(patch_of(r.payload()).description, descr@),
    {
        let CalendarEventsClient { request, event, _mode } = self;
        let event = match event {
            Some(EventRequest::Patch(mut e)) => {
                e.description = Some(String::from_str(descr));
                Some(EventRequest::Patch(e))
            }
            other => other,
        };
        CalendarEventsClient { request, event, _mode }
    }

    /// Replaces the guests of the event; the list is not appended to.
    pub fn set_attendees(self, attendees: Vec<EventAttendee>) -> (r: Self)
        ensures
            r.context() == self.context(),
            patch_field_set(r.payload(), self.payload(), EventField::Attendees),
            has_patch(self.payload()) ==> patch_of(r.payload()).attendees == attendees,
    {
        let CalendarEventsClient { request, event, _mode } = self;
        let event = match event {
            Some(EventRequest::Patch(mut e)) => {
                e.attendees = attendees;
                Some(EventRequest::Patch(e))
            }
            other => other,
        };
        CalendarEventsClient { request, event, _mode }
    }

    /// Changes the color of the event.
    pub fn set_color_id(self, id: &str) -> (r: Self)
        ensures
            r.context() == self.context(),
            patch_field_set(r.payload(), self.payload(), EventField::ColorId),
            has_patch(self.payload()) ==> text_is(patch_of(r.payload()).color_id, id@),
    {
        let CalendarEventsClient { request, event, _mode } = self;
        let event = match event {
            Some(EventRequest::Patch(mut e)) => {
                e.color_id = Some(String::from_str(id));
                Some(EventRequest::Patch(e))
            }
            other => other,
        };
        CalendarEventsClient { request, event, _mode }
    }

    /// Changes the kind of the event.
    pub fn set_event_type(self, event_type: EventType) -> (r: Self)
        ensures
            r.context() == self.context(),
            patch_field_set(r.payload(), self.payload(), EventField::EventType),
            has_patch(self.payload()) ==> text_is(patch_of(r.payload()).event_type, event_type_name(event_type)),
    {
        let CalendarEventsClient { request, event, _mode } = self;
        let event = match event {
            Some(EventRequest::Patch(mut e)) => {
                e.event_type = Some(String::from_str(event_type.as_str()));
                Some(EventRequest::Patch(e))
            }
            other => other,
        };
        CalendarEventsClient { request, event, _mode }
    }

    /// Changes whether guests may invite others.
    pub fn set_guests_can_invite_others(self, can_invite: bool) -> (r: Self)
        ensures
            r.context() == self.context(),
            patch_field_set(r.payload(), self.payload(), EventField::GuestsCanInviteOthers),
            has_patch(self.payload()) ==> patch_of(r.payload()).guests_can_invite_others == Some(can_invite),
    {
        let CalendarEventsClient { request, event, _mode } = self;
        let event = match event {
            Some(EventRequest::Patch(mut e)) => {
                e.guests_can_invite_others = Some(can_invite);
                Some(EventRequest::Patch(e))
            }
            other => other,
        };
        CalendarEventsClient { request, event, _mode }
    }

    /// Changes whether guests may change the event.
    pub fn set_guests_can_modify(self, can_modify: bool) -> (r: Self)
        ensures
            r.context() == self.context(),
            patch_field_set(r.payload(), self.payload(), EventField::GuestsCanModify),
            has_patch(self.payload()) ==> patch_of(r.payload()).guests_can_modify == Some(can_modify),
    {
        let CalendarEventsClient { request, event, _mode } = self;
        let event = match event {
            Some(EventRequest::Patch(mut e)) => {
                e.guests_can_modify = Some(can_modify);
                Some(EventRequest::Patch(e))
            }
            other => other,
        };
        CalendarEventsClient { request, event, _mode }
    }

    /// Changes whether guests may see the other guests.
    pub fn set_guests_can_see_other_guests(self, can_see: bool) -> (r: Self)
        ensures
            r.context() == self.context(),
            patch_field_set(r.payload(), self.payload(), EventField::GuestsCanSeeOtherGuests),
            has_patch(self.payload()) ==> patch_of(r.payload()).guests_can_see_other_guests == Some(can_see),
    {
        let CalendarEventsClient { request, event, _mode } = self;
        let event = match event {
            Some(EventRequest::Patch(mut e)) => {
                e.guests_can_see_other_guests = Some(can_see);
                Some(EventRequest::Patch(e))
            }
            other => other,
        };
        CalendarEventsClient { request, event, _mode }
    }

    /// Changes the identifier of the event.
    pub fn set_id(self, id: &str) -> (r: Self)
        ensures
            r.context() == self.context(),
            patch_field_set(r.payload(), self.payload(), EventField::Id),
            has_patch(self.payload()) ==> text_is(patch_of(r.payload()).id, id@),
    {
        let CalendarEventsClient { request, event, _mode } = self;
        let event = match event {
            Some(EventRequest::Patch(mut e)) => {
                e.id = Some(String::from_str(id));
                Some(EventRequest::Patch(e))
            }
            other => other,
        };
        CalendarEventsClient { request, event, _mode }
    }

    /// Changes the location of the event.
    pub fn set_location(self, location: &str) -> (r: Self)
        ensures
            r.context() == self.context(),
            patch_field_set(r.payload(), self.payload(), EventField::Location),
            has_patch(self.payload()) ==> text_is(patch_of(r.payload()).location, location@),
    {
        let CalendarEventsClient { request, event, _mode } = self;
        let event = match event {
            Some(EventRequest::Patch(mut e)) => {
                e.location = Some(String::from_str(location));
                Some(EventRequest::Patch(e))
            }
            other => other,
        };
        CalendarEventsClient { request, event, _mode }
    }

    /// Changes the out-of-office settings of the event.
    pub fn set_out_of_office_properties(self, properties: OutOfOfficeProperties) -> (r: Self)
        ensures
            r.context() == self.context(),
            patch_field_set(r.payload(), self.payload(), EventField::OutOfOfficeProperties),
            has_patch(self.payload()) ==> patch_of(r.payload()).out_of_office_properties == Some(properties),
    {
        let CalendarEventsClient { request, event, _mode } = self;
        let event = match event {
            Some(EventRequest::Patch(mut e)) => {
                e.out_of_office_properties = Some(properties);
                Some(EventRequest::Patch(e))
            }
            other => other,
        };
        CalendarEventsClient { request, event, _mode }
    }

    /// Replaces the recurrence rules of the event; the list is not appended to.
    pub fn set_recurrence(self, recurrence: Vec<String>) -> (r: Self)
        ensures
            r.context() == self.context(),
            patch_field_set(r.payload(), self.payload(), EventField::Recurrence),
            has_patch(self.payload()) ==> patch_of(r.payload()).recurrence == recurrence,
    {
        let CalendarEventsClient { request, event, _mode } = self;
        let event = match event {
            Some(EventRequest::Patch(mut e)) => {
                e.recurrence = recurrence;
                Some(EventRequest::Patch(e))
            }
            other => other,
        };
        CalendarEventsClient { request, event, _mode }
    }

    /// Replaces the reminders of the event.
    pub fn set_reminders(self, reminders: EventReminders) -> (r: Self)
        ensures
            r.context() == self.context(),
            patch_field_set(r.payload(), self.payload(), EventField::Reminders),
            has_patch(self.payload()) ==> patch_of(r.payload()).reminders == Some(reminders),
    {
        let CalendarEventsClient { request, event, _mode } = self;
        let event = match event {
            Some(EventRequest::Patch(mut e)) => {
                e.reminders = Some(reminders);
                Some(EventRequest::Patch(e))
            }
            other => other,
        };
        CalendarEventsClient { request, event, _mode }
    }

    /// Changes the iCalendar sequence number of the event.
    pub fn set_sequence(self, sequence: i32) -> (r: Self)
        ensures
            r.context() == self.context(),
            patch_field_set(r.payload(), self.payload(), EventField::Sequence),
            has_patch(self.payload()) ==> patch_of(r.payload()).sequence == Some(sequence),
    {
        let CalendarEventsClient { request, event, _mode } = self;
        let event = match event {
            Some(EventRequest::Patch(mut e)) => {
                e.sequence = Some(sequence);
                Some(EventRequest::Patch(e))
            }
            other => other,
        };
        CalendarEventsClient { request, event, _mode }
    }

    /// Changes the page the event is said to come from.
    pub fn set_source(self, source: EventSource) -> (r: Self)
        ensures
            r.context() == self.context(),
            patch_field_set(r.payload(), self.payload(), EventField::Source),
            has_patch(self.payload()) ==> patch_of(r.payload()).source == Some(source),
    {
        let CalendarEventsClient { request, event, _mode } = self;
        let event = match event {
            Some(EventRequest::Patch(mut e)) => {
                e.source = Some(source);
                Some(EventRequest::Patch(e))
            }
            other => other,
        };
        CalendarEventsClient { request, event, _mode }
    }

    /// Changes the status: `confirmed`, `tentative` or `cancelled`.
    pub fn set_status(self, status: &str) -> (r: Self)
        ensures
            r.context() == self.context(),
            patch_field_set(r.payload(), self.payload(), EventField::Status),
            has_patch(self.payload()) ==> text_is(patch_of(r.payload()).status, status@),
    {
        let CalendarEventsClient { request, event, _mode } = self;
        let event = match event {
            Some(EventRequest::Patch(mut e)) => {
                e.status = Some(String::from_str(status));
                Some(EventRequest::Patch(e))
            }
            other => other,
        };
        CalendarEventsClient { request, event, _mode }
    }

    /// Changes whether the event blocks time: `opaque` or `transparent`.
    pub fn set_transparancy(self, transparancy: &str) -> (r: Self)
        ensures
            r.context() == self.context(),
            patch_field_set(r.payload(), self.payload(), EventField::Transparency),
            has_patch(self.payload()) ==> text_is(patch_of(r.payload()).transparency, transparancy@),
    {
        let CalendarEventsClient { request, event, _mode } = self;
        let event = match event {
            Some(EventRequest::Patch(mut e)) => {
                e.transparency = Some(String::from_str(transparancy));
                Some(EventRequest::Patch(e))
            }
            other => other,
        };
        CalendarEventsClient { request, event, _mode }
    }

    /// Changes who may see the event: `default`, `public`, `private` or `confidential`.
    pub fn set_visibility(self, visibility: &str) -> (r: Self)
        ensures
            r.context() == self.context(),
            patch_field_set(r.payload(), self.payload(), EventField::Visibility),
            has_patch(self.payload()) ==> text_is(patch_of(r.payload()).visibility, visibility@),
    {
        let CalendarEventsClient { request, event, _mode } = self;
        let event = match event {
            Some(EventRequest::Patch(mut e)) => {
                e.visibility = Some(String::from_str(visibility));
                Some(EventRequest::Patch(e))
            }
            other => other,
        };
        CalendarEventsClient { request, event, _mode }
    }

    /// Changes the working-location settings of the event.
    pub fn set_working_location_properties(self, properties: WorkingLocationProperties) -> (r: Self)
        ensures
            r.context() == self.context(),
            patch_field_set(r.payload(), self.payload(), EventField::WorkingLocationProperties),
            has_patch(self.payload()) ==> patch_of(r.payload()).working_location_properties == Some(properties),
    {
        let CalendarEventsClient { request, event, _mode } = self;
        let event = match event {
            Some(EventRequest::Patch(mut e)) => {
                e.working_location_properties = Some(properties);
                Some(EventRequest::Patch(e))
            }
            other => other,
        };
        CalendarEventsClient { request, event, _mode }
    }

    /// Replaces the key and value pairs stored on the event.
    pub fn set_extended_properties(self, extended_properties: ExtendedProperties) -> (r: Self)
        ensures
            r.context() == self.context(),
            patch_field_set(r.payload(), self.payload(), EventField::ExtendedProperties),
            has_patch(self.payload()) ==> patch_of(r.payload()).extended_properties == Some(extended_properties),
    {
        let CalendarEventsClient { request, event, _mode } = self;
        let event = match event {
            Some(EventRequest::Patch(mut e)) => {
                e.extended_properties = Some(extended_properties);
                Some(EventRequest::Patch(e))
            }
            other => other,
        };
        CalendarEventsClient { request, event, _mode }
    }

    /// Chooses which guests hear of the change: `all`, `externalOnly` or `none`.
    pub fn set_send_updates(self, send: &str) -> (r: Self)
        ensures
            param_set(r.context(), self.context(), "sendUpdates"@, send@),
            r.payload() == self.payload(),
    {
        self.with_param("sendUpdates", String::from_str(send))
    }

    /// The version of conference data the caller handles: 0 ignores conference data in
    /// the payload, 1 copies it and can create conferences.
    pub fn set_conference_data_version(self, v: i8) -> (r: Self)
        ensures
            param_set(r.context(), self.context(), "conferenceDataVersion"@, decimal(v as int)),
            r.payload() == self.payload(),
    {
        self.with_param("conferenceDataVersion", i64_text(v as i64))
    }

    /// Whether the caller handles event attachments.
    pub fn support_attachments(self, support: bool) -> (r: Self)
        ensures
            param_set(r.context(), self.context(), "supportAttachments"@, bool_text(support)),
            r.payload() == self.payload(),
    {
        self.with_param("supportAttachments", bool_to_text(support))
    }

    /// Includes at most `v` attendees in the returned event.
    pub fn set_max_attendees(self, v: i16) -> (r: Self)
        ensures
            param_set(r.context(), self.context(), "maxAttendees"@, decimal(v as int)),
            r.payload() == self.payload(),
    {
        self.with_param("maxAttendees", i64_text(v as i64))
    }
}

impl CalendarEventsClient<EventDeleteMode> {
    /// Chooses which guests hear of the deletion: `all`, `externalOnly` or `none`.
    pub fn send_updates(self, send: &str) -> (r: Self)
        ensures
            param_set(r.context(), self.context(), "sendUpdates"@, send@),
            r.payload() == self.payload(),
    {
        self.with_param("sendUpdates", String::from_str(send))
    }
}


} // verus!
