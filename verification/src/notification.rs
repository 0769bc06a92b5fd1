//! The notification service: the records written when an appointment is
//! booked or cancelled, how they are shown, and the lookup of a booking's QR
//! code.

use vstd::prelude::*;
use crate::errors::AppError;
use crate::ids::{hex_digit, uuid_text, uuid_to_string};
use crate::qr::{generate_qr_code, qr_outcome};
use crate::text::{join2, join3, owned, str_eq};
use crate::time::UtcTime;

verus! {

/// An appointment event as the notification service reads it off the broker.
pub struct AppointmentEvent {
    pub appointment_id: String,
    pub slot_id: String,
    pub customer_id: String,
    pub provider_id: String,
    pub start_time: String,
    pub end_time: String,
    pub status: String,
}

/// A stored notification; the store assigns the 12-byte id.
pub struct Notification {
    pub id: Option<[u8; 12]>,
    pub user_id: String,
    pub appointment_id: String,
    pub notification_type: String,
    pub message: String,
    pub qr_code: Option<String>,
    pub created_at: UtcTime,
}

/// A notification as shown to its owner.
pub struct NotificationResponse {
    pub id: String,
    pub user_id: String,
    pub appointment_id: String,
    pub notification_type: String,
    pub message: String,
    pub qr_code: Option<String>,
    pub created_at: UtcTime,
}

/// Which notifications to list.
pub struct NotificationsQuery {
    pub user_id: Option<u128>,
}

/// A QR code presented for checking.
pub struct ValidateQrRequest {
    pub qr_data: String,
}

/// The outcome of checking a QR code.
pub struct ValidateQrResponse {
    pub valid: bool,
    pub appointment_id: Option<String>,
    pub customer_id: Option<String>,
    pub start_time: Option<String>,
}

// ---------------------------------------------------------------------------
// Object ids

/// The value of a hexadecimal digit, in either case.
pub open spec fn hex_value(c: char) -> Option<int> {
    if '0' <= c && c <= '9' {
        Some((c as int) - ('0' as int))
    } else if 'a' <= c && c <= 'f' {
        Some((c as int) - ('a' as int) + 10)
    } else if 'A' <= c && c <= 'F' {
        Some((c as int) - ('A' as int) + 10)
    } else {
        None
    }
}

/// The twelve bytes that a 24-digit hexadecimal text denotes; none for any
/// other text.
pub open spec fn object_id_of(s: Seq<char>) -> Option<Seq<u8>> {
    if s.len() == 24 && (forall|i: int| 0 <= i < 24 ==> (#[trigger] hex_value(s[i])) is Some) {
        Some(Seq::new(12, |i: int| (hex_value(s[2 * i])->0 * 16 + hex_value(s[2 * i + 1])->0) as u8))
    } else {
        None
    }
}

/// The lowercase hexadecimal text of twelve bytes, two digits per byte.
pub open spec fn object_id_text(b: Seq<u8>) -> Seq<char> {
    Seq::new(24, |i: int| if i % 2 == 0 { hex_digit((b[i / 2] as int) / 16) } else { hex_digit((b[i / 2] as int) % 16) })
}

/// Calls `mongodb::bson::oid::ObjectId::parse_str`. Trusted: it reads exactly
/// 24 hexadecimal digits of either case, two to a byte (`hex::decode`).
#[verifier::external_body]
fn parse_object_id(s: &str) -> (r: Option<[u8; 12]>)
    ensures
        match r {
            Some(b) => object_id_of(s@) == Some(b@),
            None => object_id_of(s@) is None,
        },
{
    match mongodb::bson::oid::ObjectId::parse_str(s) {
        Ok(oid) => Some(oid.bytes()),
        Err(_) => None,
    }
}

/// Calls `mongodb::bson::oid::ObjectId::to_hex`. Trusted: the text is the
/// lowercase hexadecimal of the twelve bytes (`hex::encode`).
#[verifier::external_body]
fn object_id_to_hex(b: [u8; 12]) -> (s: String)
    ensures
        s@ == object_id_text(b@),
{
    mongodb::bson::oid::ObjectId::from_bytes(b).to_hex()
}

// ---------------------------------------------------------------------------
// Records

/// The text a booking's QR code encodes.
pub open spec fn booking_qr_data(e: AppointmentEvent) -> Seq<char> {
    "BOOKING:"@ + e.appointment_id@ + ":"@ + e.customer_id@ + ":"@ + e.start_time@
}

/// `n` is the confirmation of the booking `e` made at `now`, carrying the
/// QR code `qr`: a new record for the customer.
pub open spec fn confirmation_of(e: AppointmentEvent, now: UtcTime, qr: Seq<char>, n: Notification) -> bool {
    &&& n.id is None
    &&& n.user_id@ == e.customer_id@
    &&& n.appointment_id@ == e.appointment_id@
    &&& n.notification_type@ == "booking_confirmed"@
    &&& n.message@ == "Your appointment has been confirmed for "@ + e.start_time@ + " to "@ + e.end_time@
    &&& n.qr_code matches Some(q) && q@ == qr
    &&& n.created_at == now
}

/// `n` is the notice of the cancellation `e` made at `now`: a new record
/// for the customer, without a QR code.
pub open spec fn cancellation_of(e: AppointmentEvent, now: UtcTime, n: Notification) -> bool {
    &&& n.id is None
    &&& n.user_id@ == e.customer_id@
    &&& n.appointment_id@ == e.appointment_id@
    &&& n.notification_type@ == "booking_cancelled"@
    &&& n.message@ == "Your appointment for "@ + e.start_time@ + " to "@ + e.end_time@ + " has been cancelled"@
    &&& n.qr_code is None
    &&& n.created_at == now
}

/// The record written when an appointment is booked, at `now`: a
/// confirmation for the customer carrying the booking's QR code. Fails
/// where the QR code cannot be made.
pub fn handle_appointment_created(event: &AppointmentEvent, now: UtcTime) -> (r: Result<Notification, AppError>)
    ensures
        match qr_outcome(booking_qr_data(*event)) {
            Err(msg) => r matches Err(AppError::Internal(m)) && m@ == msg,
            Ok(qr) => r matches Ok(n) && confirmation_of(*event, now, qr, n),
        },
{
    let head = join3("BOOKING:", event.appointment_id.as_str(), ":");
    let mid = join3(head.as_str(), event.customer_id.as_str(), ":");
    let qr_data = join2(mid.as_str(), event.start_time.as_str());
    let qr_code = match generate_qr_code(qr_data.as_str()) {
        Err(e) => return Err(e),
        Ok(q) => q,
    };
    let m1 = join3("Your appointment has been confirmed for ", event.start_time.as_str(), " to ");
    let message = join2(m1.as_str(), event.end_time.as_str());
    Ok(Notification {
        id: None,
        user_id: event.customer_id.clone(),
        appointment_id: event.appointment_id.clone(),
        notification_type: owned("booking_confirmed"),
        message,
        qr_code: Some(qr_code),
        created_at: now,
    })
}

/// The record written when an appointment is cancelled, at `now`: a
/// cancellation notice for the customer, without a QR code.
pub fn handle_appointment_cancelled(event: &AppointmentEvent, now: UtcTime) -> (n: Notification)
    ensures
        cancellation_of(*event, now, n),
{
    let m1 = join3("Your appointment for ", event.start_time.as_str(), " to ");
    let message = join3(m1.as_str(), event.end_time.as_str(), " has been cancelled");
    Notification {
        id: None,
        user_id: event.customer_id.clone(),
        appointment_id: event.appointment_id.clone(),
        notification_type: owned("booking_cancelled"),
        message,
        qr_code: None,
        created_at: now,
    }
}

/// `r` shows the stored notification `n`.
pub open spec fn shown_as(n: Notification, r: NotificationResponse) -> bool {
    &&& match n.id {
        Some(b) => r.id@ == object_id_text(b@),
        None => r.id@ == Seq::<char>::empty(),
    }
    &&& r.user_id == n.user_id
    &&& r.appointment_id == n.appointment_id
    &&& r.notification_type == n.notification_type
    &&& r.message == n.message
    &&& r.qr_code == n.qr_code
    &&& r.created_at == n.created_at
}

impl NotificationResponse {
    /// A stored notification as shown: its id in hexadecimal (empty where it
    /// has none yet), the rest as stored.
    pub fn from(n: Notification) -> (r: NotificationResponse)
        ensures
            shown_as(n, r),
    {
        let id = match n.id {
            Some(b) => object_id_to_hex(b),
            None => String::new(),
        };
        NotificationResponse {
            id,
            user_id: n.user_id,
            appointment_id: n.appointment_id,
            notification_type: n.notification_type,
            message: n.message,
            qr_code: n.qr_code,
            created_at: n.created_at,
        }
    }
}

/// The stored notifications shown to their owner, in the order found.
pub fn get_notifications(found: Vec<Notification>) -> (r: Vec<NotificationResponse>)
    ensures
        r@.len() == found@.len(),
        forall|i: int| 0 <= i < r@.len() ==> shown_as(found@[i], #[trigger] r@[i]),
{
    let ghost orig = found@;
    let mut rest = found;
    let mut out: Vec<NotificationResponse> = Vec::new();
    while rest.len() > 0
        invariant
            out@.len() + rest@.len() == orig.len(),
            rest@ == orig.subrange(out@.len() as int, orig.len() as int),
            forall|i: int| 0 <= i < out@.len() ==> shown_as(orig[i], #[trigger] out@[i]),
        decreases rest@.len(),
    {
        let n = rest.remove(0);
        assert(n == orig[out@.len() as int]);
        out.push(NotificationResponse::from(n));
        assert(rest@ == orig.subrange(out@.len() as int, orig.len() as int));
    }
    out
}

/// Where a user's notifications are looked up: by the text of their id.
pub fn notifications_filter(user_id: u128) -> (s: String)
    ensures
        s@ == uuid_text(user_id),
{
    uuid_to_string(user_id)
}

/// The store id named in a request for a QR code; a text that is not 24
/// hexadecimal digits is refused.
pub fn notification_object_id(id: &str) -> (r: Result<[u8; 12], AppError>)
    ensures
        match object_id_of(id@) {
            Some(b) => r matches Ok(x) && x@ == b,
            None => r matches Err(AppError::BadRequest(m)) && m@ == "Invalid notification ID"@,
        },
{
    match parse_object_id(id) {
        Some(b) => Ok(b),
        None => Err(AppError::BadRequest(owned("Invalid notification ID"))),
    }
}

/// The QR code of the notification found for a request: refused where there
/// is no such notification or it carries no code.
pub fn get_qr_code(found: Option<Notification>) -> (r: Result<String, AppError>)
    ensures
        match found {
            None => r matches Err(AppError::NotFound(m)) && m@ == "Notification not found"@,
            Some(n) => match n.qr_code {
                None => r matches Err(AppError::NotFound(m)) && m@ == "No QR code for this notification"@,
                Some(q) => r == Ok::<String, AppError>(q),
            },
        },
{
    match found {
        None => Err(AppError::NotFound(owned("Notification not found"))),
        Some(n) => match n.qr_code {
            None => Err(AppError::NotFound(owned("No QR code for this notification"))),
            Some(q) => Ok(q),
        },
    }
}

// ---------------------------------------------------------------------------
// Events off the broker

/// The two announcements the service listens for.
#[derive(Debug, Clone, Copy, PartialEq, Eq, Structural)]
pub enum EventKind {
    Created,
    Cancelled,
}

/// The announcement published on `subject`, if it is one the service handles.
pub open spec fn event_kind_of(subject: Seq<char>) -> Option<EventKind> {
    if subject == "appointments.created"@ {
        Some(EventKind::Created)
    } else if subject == "appointments.cancelled"@ {
        Some(EventKind::Cancelled)
    } else {
        None
    }
}

/// Which announcement arrived on `subject`.
pub fn subject_kind(subject: &str) -> (k: Option<EventKind>)
    ensures
        k == event_kind_of(subject@),
{
    if str_eq(subject, "appointments.created") {
        Some(EventKind::Created)
    } else if str_eq(subject, "appointments.cancelled") {
        Some(EventKind::Cancelled)
    } else {
        None
    }
}

/// The record to write for an announcement received at `now`.
pub fn handle_event(kind: EventKind, event: &AppointmentEvent, now: UtcTime) -> (r: Result<Notification, AppError>)
    ensures
        kind == EventKind::Cancelled ==> (r matches Ok(n) && cancellation_of(*event, now, n)),
        kind == EventKind::Created ==> match qr_outcome(booking_qr_data(*event)) {
            Err(msg) => r matches Err(AppError::Internal(m)) && m@ == msg,
            Ok(qr) => r matches Ok(n) && confirmation_of(*event, now, qr, n),
        },
{
    match kind {
        EventKind::Created => handle_appointment_created(event, now),
        EventKind::Cancelled => Ok(handle_appointment_cancelled(event, now)),
    }
}

} // verus!
