use std::collections::HashMap;
use vstd::prelude::*;

use crate::time::UtcTime;

verus! {

/// serde_json's `Value`: any JSON value. The library carries it through unread.
#[verifier::external_type_specification]
#[verifier::external_body]
pub struct ExJsonValue(serde_json::Value);

/// A reminder that a calendar applies to events without reminders of their own.
#[derive(Clone, Debug, PartialEq)]
pub struct EventDefaultReminder {
    /// How the reminder is delivered: `email` or `popup`.
    pub method: String,
    /// Minutes before the start of the event at which the reminder fires.
    pub minutes: i64,
}

/// A calendar event as the service returns it.
#[derive(Clone, Debug, PartialEq)]
pub struct Event {
    pub kind: String,
    pub etag: String,
    pub id: String,
    pub status: String,
    pub html_link: String,
    pub created: Option<UtcTime>,
    pub updated: Option<UtcTime>,
    pub summary: String,
    pub description: String,
    pub location: String,
    pub color_id: String,
    pub creator: Option<EventPerson>,
    pub organizer: Option<EventPerson>,
    pub start: Option<EventDateTime>,
    pub end: Option<EventDateTime>,
    pub end_time_unspecified: Option<bool>,
    pub recurrence: Vec<String>,
    pub recurring_event_id: String,
    pub original_start_time: Option<EventDateTime>,
    pub transparency: String,
    pub visibility: String,
    pub ical_uid: String,
    pub sequence: i64,
    pub attendees: Vec<EventAttendee>,
    pub attendees_omitted: Option<bool>,
    pub extended_properties: Option<EventExtendedProperties>,
    pub hangout_link: String,
    pub conference_data: Option<EventConferenceData>,
    pub gadget: Option<EventGadget>,
    pub anyone_can_add_self: Option<bool>,
    pub guests_can_invite_others: Option<bool>,
    pub guests_can_modify: Option<bool>,
    pub guests_can_see_other_guests: Option<bool>,
    pub private_copy: Option<bool>,
    pub locked: Option<bool>,
    pub reminders: Option<EventReminders>,
    pub source: Option<EventSource>,
    pub working_location_properties: Option<WorkingLocationProperties>,
    pub out_of_office_properties: Option<OutOfOfficeProperties>,
    pub focus_time_properties: Option<FocusTimeProperties>,
    pub attachments: Vec<EventAttachment>,
    pub birthday_properties: Option<BirthdayProperties>,
    pub event_type: String,
}

/// The creator or organizer of an event.
#[derive(Clone, Debug, PartialEq)]
pub struct EventPerson {
    pub id: String,
    pub email: String,
    pub display_name: String,
    pub self_: Option<bool>,
}

/// The start or end of an event: a whole day (`date`, as `yyyy-mm-dd`) or an instant
/// (`date_time`), with the time zone it is given in.
#[derive(Clone, Debug, PartialEq)]
pub struct EventDateTime {
    pub date: Option<String>,
    pub date_time: Option<UtcTime>,
    pub time_zone: Option<String>,
}

/// A guest of an event.
#[derive(Clone, Debug, PartialEq)]
pub struct EventAttendee {
    pub id: String,
    pub email: String,
    pub display_name: String,
    pub organizer: Option<bool>,
    pub self_: Option<bool>,
    pub resource: Option<bool>,
    pub optional: Option<bool>,
    pub response_status: String,
    pub comment: String,
    pub additional_guests: i64,
}

/// Key and value pairs stored on an event returned by the service.
#[derive(Clone, Debug, PartialEq)]
pub struct EventExtendedProperties {
    pub private: Option<HashMap<String, String>>,
    pub shared: Option<HashMap<String, String>>,
}

/// The conference (video call) attached to an event returned by the service.
#[derive(Clone, Debug, PartialEq)]
pub struct EventConferenceData {
    pub create_request: Option<ConferenceRequestStatus>,
    pub entry_points: Vec<EntryPoint>,
    pub conference_solution: Option<ConferenceSolution>,
    pub conference_id: String,
    pub signature: String,
    pub notes: String,
}

/// A request to create a conference, and how far it got.
#[derive(Clone, Debug, PartialEq)]
pub struct ConferenceRequestStatus {
    pub request_id: String,
    pub conference_solution_key: Option<ConferenceSolutionKey>,
    pub status: Option<ConferenceStatus>,
}

/// The kind of conference solution, such as `hangoutsMeet`.
#[derive(Clone, Debug, PartialEq)]
pub struct ConferenceSolutionKey {
    pub type_: String,
}

/// The state of a conference creation request: `pending`, `success` or `failure`.
#[derive(Clone, Debug, PartialEq)]
pub struct ConferenceStatus {
    pub status_code: String,
}

/// One way of joining a conference.
#[derive(Clone, Debug, PartialEq)]
pub struct EntryPoint {
    pub entry_point_type: String,
    pub uri: String,
    pub label: String,
    pub pin: String,
    pub access_code: String,
    pub meeting_code: String,
    pub passcode: String,
    pub password: String,
}

/// The product that hosts a conference.
#[derive(Clone, Debug, PartialEq)]
pub struct ConferenceSolution {
    pub key: Option<ConferenceSolutionKey>,
    pub name: String,
    pub icon_uri: String,
}

/// A gadget that extends an event.
#[derive(Clone, Debug, PartialEq)]
pub struct EventGadget {
    pub type_: String,
    pub title: String,
    pub link: String,
    pub icon_link: String,
    pub width: i64,
    pub height: i64,
    pub display: String,
    pub preferences: Option<HashMap<String, String>>,
}

/// The reminders of an event: the calendar's defaults, or the listed overrides.
#[derive(Clone, Debug, PartialEq)]
pub struct EventReminders {
    pub use_default: Option<bool>,
    pub overrides: Vec<EventDefaultReminder>,
}

/// The page an event was created from.
#[derive(Clone, Debug, PartialEq)]
pub struct EventSource {
    pub url: String,
    pub title: String,
}

/// Where the user works during a working-location event.
#[derive(Clone, Debug, PartialEq)]
pub struct WorkingLocationProperties {
    pub type_: String,
    pub home_office: Option<serde_json::Value>,
    pub custom_location: Option<CustomLocation>,
    pub office_location: Option<OfficeLocation>,
}

/// A working location given by a free label.
#[derive(Clone, Debug, PartialEq)]
pub struct CustomLocation {
    pub label: String,
}

/// A working location in an office.
#[derive(Clone, Debug, PartialEq)]
pub struct OfficeLocation {
    pub building_id: String,
    pub floor_id: String,
    pub floor_section_id: String,
    pub desk_id: String,
    pub label: String,
}

/// Settings of an out-of-office event.
#[derive(Clone, Debug, PartialEq)]
pub struct OutOfOfficeProperties {
    pub auto_decline_mode: String,
    pub decline_message: String,
}

/// Settings of a focus-time event.
#[derive(Clone, Debug, PartialEq)]
pub struct FocusTimeProperties {
    pub auto_decline_mode: String,
    pub decline_message: String,
    pub chat_status: String,
}

/// A file attached to an event.
#[derive(Clone, Debug, PartialEq)]
pub struct EventAttachment {
    pub file_url: String,
    pub title: String,
    pub mime_type: String,
    pub icon_link: String,
    pub file_id: String,
}

/// Settings of a birthday event.
#[derive(Clone, Debug, PartialEq)]
pub struct BirthdayProperties {
    pub contact: String,
    pub type_: String,
    pub custom_type_name: String,
}

/// One page of the events of a calendar.
#[derive(Clone, Debug, PartialEq)]
pub struct EventList {
    pub access_role: String,
    pub default_reminders: Vec<EventDefaultReminder>,
    pub description: String,
    pub etag: String,
    pub items: Vec<Event>,
    pub kind: String,
    pub next_page_token: String,
    pub next_sync_token: String,
    pub summary: String,
    pub time_zone: String,
    pub updated: Option<UtcTime>,
}

/// The conference to attach to an event that is created or changed.
#[derive(Debug)]
pub struct ConferenceData {
    pub conference_solution: Option<ConferenceSolution>,
    pub entry_points: Vec<EntryPoint>,
}

/// Key and value pairs to store on an event that is created or changed.
#[derive(Debug)]
pub struct ExtendedProperties {
    pub private: Option<HashMap<String, String>>,
    pub shared: Option<HashMap<String, String>>,
}

/// A field of an event that a request creates or changes.
pub enum EventField {
    End,
    Start,
    AnyoneCanAddSelf,
    Attendees,
    BirthdayProperties,
    ColorId,
    ConferenceData,
    Description,
    EventType,
    ExtendedProperties,
    FocusTimeProperties,
    Gadget,
    GuestsCanInviteOthers,
    GuestsCanModify,
    GuestsCanSeeOtherGuests,
    Id,
    ICalUid,
    Location,
    OutOfOfficeProperties,
    Recurrence,
    Reminders,
    Sequence,
    Source,
    Status,
    Summary,
    Transparency,
    Visibility,
    WorkingLocationProperties,
}

/// A new event: its start and end, and the optional fields to send with it. A field
/// left `None` (or an empty list) is not sent.
#[derive(Debug)]
pub struct CreateEventRequest {
    pub end: EventDateTime,
    pub start: EventDateTime,
    pub anyone_can_add_self: Option<bool>,
    pub attendees: Vec<EventAttendee>,
    pub birthday_properties: Option<BirthdayProperties>,
    pub color_id: Option<String>,
    pub conference_data: Option<ConferenceData>,
    pub description: Option<String>,
    pub event_type: Option<String>,
    pub extended_properties: Option<ExtendedProperties>,
    pub focus_time_properties: Option<FocusTimeProperties>,
    pub gadget: Option<EventGadget>,
    pub guests_can_invite_others: Option<bool>,
    pub guests_can_modify: Option<bool>,
    pub guests_can_see_other_guests: Option<bool>,
    pub id: Option<String>,
    pub ical_uid: Option<String>,
    pub location: Option<String>,
    pub out_of_office_properties: Option<OutOfOfficeProperties>,
    pub recurrence: Vec<String>,
    pub reminders: Option<EventReminders>,
    pub sequence: Option<i32>,
    pub source: Option<EventSource>,
    pub status: Option<String>,
    pub summary: Option<String>,
    pub transparency: Option<String>,
    pub visibility: Option<String>,
    pub working_location_properties: Option<WorkingLocationProperties>,
}

impl CreateEventRequest {
    /// Whether the request sends field `f`.
    pub open spec fn sends(&self, f: EventField) -> bool {
        match f {
            EventField::End => true,
            EventField::Start => true,
            EventField::AnyoneCanAddSelf => self.anyone_can_add_self is Some,
            EventField::Attendees => self.attendees@.len() > 0,
            EventField::BirthdayProperties => self.birthday_properties is Some,
            EventField::ColorId => self.color_id is Some,
            EventField::ConferenceData => self.conference_data is Some,
            EventField::Description => self.description is Some,
            EventField::EventType => self.event_type is Some,
            EventField::ExtendedProperties => self.extended_properties is Some,
            EventField::FocusTimeProperties => self.focus_time_properties is Some,
            EventField::Gadget => self.gadget is Some,
            EventField::GuestsCanInviteOthers => self.guests_can_invite_others is Some,
            EventField::GuestsCanModify => self.guests_can_modify is Some,
            EventField::GuestsCanSeeOtherGuests => self.guests_can_see_other_guests is Some,
            EventField::Id => self.id is Some,
            EventField::ICalUid => self.ical_uid is Some,
            EventField::Location => self.location is Some,
            EventField::OutOfOfficeProperties => self.out_of_office_properties is Some,
            EventField::Recurrence => self.recurrence@.len() > 0,
            EventField::Reminders => self.reminders is Some,
            EventField::Sequence => self.sequence is Some,
            EventField::Source => self.source is Some,
            EventField::Status => self.status is Some,
            EventField::Summary => self.summary is Some,
            EventField::Transparency => self.transparency is Some,
            EventField::Visibility => self.visibility is Some,
            EventField::WorkingLocationProperties => self.working_location_properties is Some,
        }
    }

    /// The fields that the request sends.
    pub open spec fn sent_fields(&self) -> Set<EventField> {
        Set::new(|f: EventField| self.sends(f))
    }

    /// Whether `self` and `other` hold the same value in every field but `f`.
    pub open spec fn agrees_except(&self, other: &CreateEventRequest, f: EventField) -> bool {
        &&& (!(f is End) ==> self.end == other.end)
        &&& (!(f is Start) ==> self.start == other.start)
        &&& (!(f is AnyoneCanAddSelf) ==> self.anyone_can_add_self == other.anyone_can_add_self)
        &&& (!(f is Attendees) ==> self.attendees == other.attendees)
        &&& (!(f is BirthdayProperties) ==> self.birthday_properties == other.birthday_properties)
        &&& (!(f is ColorId) ==> self.color_id == other.color_id)
        &&& (!(f is ConferenceData) ==> self.conference_data == other.conference_data)
        &&& (!(f is Description) ==> self.description == other.description)
        &&& (!(f is EventType) ==> self.event_type == other.event_type)
        &&& (!(f is ExtendedProperties) ==> self.extended_properties == other.extended_properties)
        &&& (!(f is FocusTimeProperties) ==> self.focus_time_properties == other.focus_time_properties)
        &&& (!(f is Gadget) ==> self.gadget == other.gadget)
        &&& (!(f is GuestsCanInviteOthers) ==> self.guests_can_invite_others == other.guests_can_invite_others)
        &&& (!(f is GuestsCanModify) ==> self.guests_can_modify == other.guests_can_modify)
        &&& (!(f is GuestsCanSeeOtherGuests) ==> self.guests_can_see_other_guests == other.guests_can_see_other_guests)
        &&& (!(f is Id) ==> self.id == other.id)
        &&& (!(f is ICalUid) ==> self.ical_uid == other.ical_uid)
        &&& (!(f is Location) ==> self.location == other.location)
        &&& (!(f is OutOfOfficeProperties) ==> self.out_of_office_properties == other.out_of_office_properties)
        &&& (!(f is Recurrence) ==> self.recurrence == other.recurrence)
        &&& (!(f is Reminders) ==> self.reminders == other.reminders)
        &&& (!(f is Sequence) ==> self.sequence == other.sequence)
        &&& (!(f is Source) ==> self.source == other.source)
        &&& (!(f is Status) ==> self.status == other.status)
        &&& (!(f is Summary) ==> self.summary == other.summary)
        &&& (!(f is Transparency) ==> self.transparency == other.transparency)
        &&& (!(f is Visibility) ==> self.visibility == other.visibility)
        &&& (!(f is WorkingLocationProperties) ==> self.working_location_properties == other.working_location_properties)
    }

    /// A new event from `start` to `end`, with every optional field left unset.
    pub fn new(start: EventDateTime, end: EventDateTime) -> (r: CreateEventRequest)
        ensures
            r.start == start,
            r.end == end,
            r.sent_fields() == set![EventField::Start, EventField::End],
    {
        let r = CreateEventRequest {
            end,
            start,
            anyone_can_add_self: None,
            attendees: Vec::new(),
            birthday_properties: None,
            color_id: None,
            conference_data: None,
            description: None,
            event_type: None,
            extended_properties: None,
            focus_time_properties: None,
            gadget: None,
            guests_can_invite_others: None,
            guests_can_modify: None,
            guests_can_see_other_guests: None,
            id: None,
            ical_uid: None,
            location: None,
            out_of_office_properties: None,
            recurrence: Vec::new(),
            reminders: None,
            sequence: None,
            source: None,
            status: None,
            summary: None,
            transparency: None,
            visibility: None,
            working_location_properties: None,
        };
        assert(r.sent_fields() =~= set![EventField::Start, EventField::End]);
        r
    }
}

/// The fields to change on an existing event. A field left `None` (or an empty list)
/// is not sent, and the service keeps its value.
#[derive(Debug)]
pub struct PatchEventRequest {
    pub end: Option<EventDateTime>,
    pub start: Option<EventDateTime>,
    pub anyone_can_add_self: Option<bool>,
    pub attendees: Vec<EventAttendee>,
    pub birthday_properties: Option<BirthdayProperties>,
    pub color_id: Option<String>,
    pub conference_data: Option<ConferenceData>,
    pub description: Option<String>,
    pub event_type: Option<String>,
    pub extended_properties: Option<ExtendedProperties>,
    pub focus_time_properties: Option<FocusTimeProperties>,
    pub gadget: Option<EventGadget>,
    pub guests_can_invite_others: Option<bool>,
    pub guests_can_modify: Option<bool>,
    pub guests_can_see_other_guests: Option<bool>,
    pub id: Option<String>,
    pub location: Option<String>,
    pub out_of_office_properties: Option<OutOfOfficeProperties>,
    pub recurrence: Vec<String>,
    pub reminders: Option<EventReminders>,
    pub sequence: Option<i32>,
    pub source: Option<EventSource>,
    pub status: Option<String>,
    pub summary: Option<String>,
    pub transparency: Option<String>,
    pub visibility: Option<String>,
    pub working_location_properties: Option<WorkingLocationProperties>,
}

impl PatchEventRequest {
    /// Whether the request sends field `f`.
    pub open spec fn sends(&self, f: EventField) -> bool {
        match f {
            EventField::End => self.end is Some,
            EventField::Start => self.start is Some,
            EventField::AnyoneCanAddSelf => self.anyone_can_add_self is Some,
            EventField::Attendees => self.attendees@.len() > 0,
            EventField::BirthdayProperties => self.birthday_properties is Some,
            EventField::ColorId => self.color_id is Some,
            EventField::ConferenceData => self.conference_data is Some,
            EventField::Description => self.description is Some,
            EventField::EventType => self.event_type is Some,
            EventField::ExtendedProperties => self.extended_properties is Some,
            EventField::FocusTimeProperties => self.focus_time_properties is Some,
            EventField::Gadget => self.gadget is Some,
            EventField::GuestsCanInviteOthers => self.guests_can_invite_others is Some,
            EventField::GuestsCanModify => self.guests_can_modify is Some,
            EventField::GuestsCanSeeOtherGuests => self.guests_can_see_other_guests is Some,
            EventField::Id => self.id is Some,
            EventField::ICalUid => false,
            EventField::Location => self.location is Some,
            EventField::OutOfOfficeProperties => self.out_of_office_properties is Some,
            EventField::Recurrence => self.recurrence@.len() > 0,
            EventField::Reminders => self.reminders is Some,
            EventField::Sequence => self.sequence is Some,
            EventField::Source => self.source is Some,
            EventField::Status => self.status is Some,
            EventField::Summary => self.summary is Some,
            EventField::Transparency => self.transparency is Some,
            EventField::Visibility => self.visibility is Some,
            EventField::WorkingLocationProperties => self.working_location_properties is Some,
        }
    }

    /// The fields that the request sends.
    pub open spec fn sent_fields(&self) -> Set<EventField> {
        Set::new(|f: EventField| self.sends(f))
    }

    /// Whether `self` and `other` hold the same value in every field but `f`.
    pub open spec fn agrees_except(&self, other: &PatchEventRequest, f: EventField) -> bool {
        &&& (!(f is End) ==> self.end == other.end)
        &&& (!(f is Start) ==> self.start == other.start)
        &&& (!(f is AnyoneCanAddSelf) ==> self.anyone_can_add_self == other.anyone_can_add_self)
        &&& (!(f is Attendees) ==> self.attendees == other.attendees)
        &&& (!(f is BirthdayProperties) ==> self.birthday_properties == other.birthday_properties)
        &&& (!(f is ColorId) ==> self.color_id == other.color_id)
        &&& (!(f is ConferenceData) ==> self.conference_data == other.conference_data)
        &&& (!(f is Description) ==> self.description == other.description)
        &&& (!(f is EventType) ==> self.event_type == other.event_type)
        &&& (!(f is ExtendedProperties) ==> self.extended_properties == other.extended_properties)
        &&& (!(f is FocusTimeProperties) ==> self.focus_time_properties == other.focus_time_properties)
        &&& (!(f is Gadget) ==> self.gadget == other.gadget)
        &&& (!(f is GuestsCanInviteOthers) ==> self.guests_can_invite_others == other.guests_can_invite_others)
        &&& (!(f is GuestsCanModify) ==> self.guests_can_modify == other.guests_can_modify)
        &&& (!(f is GuestsCanSeeOtherGuests) ==> self.guests_can_see_other_guests == other.guests_can_see_other_guests)
        &&& (!(f is Id) ==> self.id == other.id)
        &&& (!(f is Location) ==> self.location == other.location)
        &&& (!(f is OutOfOfficeProperties) ==> self.out_of_office_properties == other.out_of_office_properties)
        &&& (!(f is Recurrence) ==> self.recurrence == other.recurrence)
        &&& (!(f is Reminders) ==> self.reminders == other.reminders)
        &&& (!(f is Sequence) ==> self.sequence == other.sequence)
        &&& (!(f is Source) ==> self.source == other.source)
        &&& (!(f is Status) ==> self.status == other.status)
        &&& (!(f is Summary) ==> self.summary == other.summary)
        &&& (!(f is Transparency) ==> self.transparency == other.transparency)
        &&& (!(f is Visibility) ==> self.visibility == other.visibility)
        &&& (!(f is WorkingLocationProperties) ==> self.working_location_properties == other.working_location_properties)
    }

    /// A change that sets no field.
    pub fn new() -> (r: PatchEventRequest)
        ensures
            r.sent_fields() == Set::<EventField>::empty(),
    {
        let r = PatchEventRequest {
            end: None,
            start: None,
            anyone_can_add_self: None,
            attendees: Vec::new(),
            birthday_properties: None,
            color_id: None,
            conference_data: None,
            description: None,
            event_type: None,
            extended_properties: None,
            focus_time_properties: None,
            gadget: None,
            guests_can_invite_others: None,
            guests_can_modify: None,
            guests_can_see_other_guests: None,
            id: None,
            location: None,
            out_of_office_properties: None,
            recurrence: Vec::new(),
            reminders: None,
            sequence: None,
            source: None,
            status: None,
            summary: None,
            transparency: None,
            visibility: None,
            working_location_properties: None,
        };
        assert(r.sent_fields() =~= Set::<EventField>::empty());
        r
    }
}

impl Default for PatchEventRequest {
    fn default() -> (r: PatchEventRequest)
        ensures
            r.sent_fields() == Set::<EventField>::empty(),
    {
        PatchEventRequest::new()
    }
}

/// The payload of a request that creates or changes an event.
#[derive(Debug)]
pub enum EventRequest {
    Create(CreateEventRequest),
    Patch(PatchEventRequest),
}


} // verus!
