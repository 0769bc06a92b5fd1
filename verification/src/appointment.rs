//! The appointment service: offering slots, the booking saga (lock the slot,
//! mark it booked, record the appointment, commit, announce), cancellation
//! (mark cancelled, free the slot, announce) and listing one's appointments.

use vstd::prelude::*;
use vstd::pervasive::unreached;
use crate::errors::AppError;
use crate::ids::{parse_uuid, uuid_parsed};
use crate::text::{owned, str_eq};
use crate::time::UtcTime;

verus! {

/// An offered time slot. Its status is `available`, `booked` or another
/// state of the store's `slot_status` type.
pub struct TimeSlot {
    pub id: u128,
    pub provider_id: u128,
    pub start_time: UtcTime,
    pub end_time: UtcTime,
    pub status: String,
    pub created_at: UtcTime,
}

/// A booked appointment; its status is `confirmed` or `cancelled`.
pub struct Appointment {
    pub id: u128,
    pub slot_id: u128,
    pub customer_id: u128,
    pub provider_id: u128,
    pub status: String,
    pub created_at: UtcTime,
    pub updated_at: UtcTime,
}

/// One slot to offer.
pub struct SlotInput {
    pub start_time: UtcTime,
    pub end_time: UtcTime,
}

/// A provider's offer of slots.
pub struct CreateSlotsRequest {
    pub provider_id: u128,
    pub slots: Vec<SlotInput>,
}

/// A customer's booking of a slot.
pub struct BookRequest {
    pub slot_id: u128,
    pub customer_id: u128,
}

/// A search for a provider's free slots, on one date where one is given.
pub struct SlotsQuery {
    pub provider_id: u128,
    pub date: Option<String>,
    pub all: Option<bool>,
}

/// Whose appointments to list, and in which role.
pub struct MyAppointmentsQuery {
    pub user_id: Option<u128>,
    pub role: Option<String>,
}

/// The announcement of a booking or a cancellation.
pub struct AppointmentEvent {
    pub appointment_id: u128,
    pub slot_id: u128,
    pub customer_id: u128,
    pub provider_id: u128,
    pub start_time: UtcTime,
    pub end_time: UtcTime,
    pub status: String,
}

/// An appointment with its slot's times and both parties' names.
pub struct AppointmentWithDetails {
    pub id: u128,
    pub slot_id: u128,
    pub customer_id: u128,
    pub provider_id: u128,
    pub status: String,
    pub created_at: UtcTime,
    pub updated_at: UtcTime,
    pub start_time: UtcTime,
    pub end_time: UtcTime,
    pub provider_first_name: Option<String>,
    pub provider_last_name: Option<String>,
    pub provider_service_type: Option<String>,
    pub provider_address: Option<String>,
    pub customer_first_name: Option<String>,
    pub customer_last_name: Option<String>,
}

// ---------------------------------------------------------------------------
// Offering and searching

/// Slots may be offered only by a provider, and only their own: the
/// caller's `X-User-Role` is `provider` and their `X-User-Id` names the
/// provider of the offer.
pub open spec fn may_offer_slots(provider_id: u128, caller_id: Option<Seq<char>>, caller_role: Option<Seq<char>>) -> bool {
    &&& caller_role == Some("provider"@)
    &&& caller_id matches Some(c)
    &&& uuid_parsed(c) == Some(provider_id)
}

/// The start and end of each slot offered, in order. A caller who is not the
/// offer's provider is refused first; then an offer without slots.
pub fn create_slots(payload: &CreateSlotsRequest, caller_id: Option<String>, caller_role: Option<String>) -> (r: Result<Vec<(UtcTime, UtcTime)>, AppError>)
    ensures
        !may_offer_slots(payload.provider_id, opt_view(caller_id), opt_view(caller_role))
            ==> (r matches Err(AppError::Forbidden(m)) && m@ == "Only a provider may offer slots, and only their own"@),
        may_offer_slots(payload.provider_id, opt_view(caller_id), opt_view(caller_role)) && payload.slots@.len() == 0
            ==> (r matches Err(AppError::BadRequest(m)) && m@ == "At least one slot is required"@),
        may_offer_slots(payload.provider_id, opt_view(caller_id), opt_view(caller_role)) && payload.slots@.len() > 0
            ==> (r matches Ok(v) && v@.len() == payload.slots@.len()
            && forall|i: int| 0 <= i < v@.len() ==> #[trigger] v@[i] == (payload.slots@[i].start_time, payload.slots@[i].end_time)),
{
    let is_provider = match &caller_role {
        Some(r) => str_eq(r.as_str(), "provider"),
        None => false,
    };
    let is_owner = match &caller_id {
        Some(c) => match parse_uuid(c.as_str()) {
            Some(u) => u == payload.provider_id,
            None => false,
        },
        None => false,
    };
    if !(is_provider && is_owner) {
        return Err(AppError::Forbidden(owned("Only a provider may offer slots, and only their own")));
    }
    if payload.slots.len() == 0 {
        return Err(AppError::BadRequest(owned("At least one slot is required")));
    }
    let mut out: Vec<(UtcTime, UtcTime)> = Vec::new();
    let mut i: usize = 0;
    while i < payload.slots.len()
        invariant
            i <= payload.slots@.len(),
            out@.len() == i,
            forall|j: int| 0 <= j < i ==> #[trigger] out@[j] == (payload.slots@[j].start_time, payload.slots@[j].end_time),
        decreases payload.slots@.len() - i,
    {
        out.push((payload.slots[i].start_time, payload.slots[i].end_time));
        i = i + 1;
    }
    Ok(out)
}

/// The characters of an optional string.
pub open spec fn opt_view(s: Option<String>) -> Option<Seq<char>> {
    match s {
        Some(x) => Some(x@),
        None => None,
    }
}

/// Which free slots to list: a provider's, on the given date where one is given.
pub struct SlotSearch {
    pub provider_id: u128,
    pub date: Option<String>,
}

/// The search behind a request for free slots.
pub fn get_available_slots(query: &SlotsQuery) -> (s: SlotSearch)
    ensures
        s.provider_id == query.provider_id,
        s.date == query.date,
{
    SlotSearch { provider_id: query.provider_id, date: query.date.clone() }
}

/// Which appointments to list.
pub enum AppointmentListing {
    ByProvider(u128),
    ByCustomer(u128),
}

/// A provider sees the appointments made with them; anyone else, the
/// appointments they made.
pub open spec fn listing_for(user_id: u128, role: Option<Seq<char>>) -> AppointmentListing {
    if role == Some("provider"@) {
        AppointmentListing::ByProvider(user_id)
    } else {
        AppointmentListing::ByCustomer(user_id)
    }
}

/// The listing for a request about `user_id` in the given role (from the
/// query, or else from the gateway's `X-User-Role` header).
pub fn my_appointments(user_id: u128, query_role: Option<String>, header_role: Option<String>) -> (l: AppointmentListing)
    ensures
        l == listing_for(user_id, match query_role {
            Some(r) => Some(r@),
            None => match header_role { Some(r) => Some(r@), None => None },
        }),
{
    let role = match query_role {
        Some(r) => Some(r),
        None => header_role,
    };
    match role {
        Some(r) => {
            if str_eq(r.as_str(), "provider") {
                AppointmentListing::ByProvider(user_id)
            } else {
                AppointmentListing::ByCustomer(user_id)
            }
        },
        None => AppointmentListing::ByCustomer(user_id),
    }
}

// ---------------------------------------------------------------------------
// The booking saga

/// Where a booking stands.
pub enum BookingStep {
    Start,
    Beginning,
    Locking,
    Marking { slot: TimeSlot },
    Recording { slot: TimeSlot },
    Committing { slot: TimeSlot, appointment: Appointment },
    Announcing { appointment: Appointment },
    Done,
}

/// What the service does next.
pub enum BookingAction {
    /// Open a transaction; the following store work runs in it until `Commit`,
    /// and is rolled back where the booking ends before.
    BeginTransaction,
    /// Read the slot and lock it against concurrent bookings.
    LockSlot { slot_id: u128 },
    SetSlotStatus { slot_id: u128, status: String },
    CreateAppointment { slot_id: u128, customer_id: u128, provider_id: u128 },
    Commit,
    /// Publish the event on the subject, where a broker is connected; a
    /// failure to publish is logged and does not change the answer.
    Publish { subject: String, event: AppointmentEvent },
    Respond(Result<Appointment, AppError>),
}

/// What came of the last action.
pub enum BookingEvent {
    Begin,
    TransactionBegun(Result<(), AppError>),
    SlotLocked(Result<Option<TimeSlot>, AppError>),
    StatusSet(Result<(), AppError>),
    AppointmentCreated(Result<Appointment, AppError>),
    Committed(Result<(), AppError>),
    Published,
}

/// The event answers the action that led to `step`.
pub open spec fn booking_answers(step: BookingStep, event: BookingEvent) -> bool {
    match step {
        BookingStep::Start => event is Begin,
        BookingStep::Beginning => event is TransactionBegun,
        BookingStep::Locking => event is SlotLocked,
        BookingStep::Marking { .. } => event is StatusSet,
        BookingStep::Recording { .. } => event is AppointmentCreated,
        BookingStep::Committing { .. } => event is Committed,
        BookingStep::Announcing { .. } => event is Published,
        BookingStep::Done => false,
    }
}

/// The announcement of a booking: the appointment as recorded, the slot's
/// times, status `confirmed`.
pub open spec fn booked_event(a: Appointment, slot: TimeSlot, e: AppointmentEvent) -> bool {
    &&& e.appointment_id == a.id
    &&& e.slot_id == a.slot_id
    &&& e.customer_id == a.customer_id
    &&& e.provider_id == a.provider_id
    &&& e.start_time == slot.start_time
    &&& e.end_time == slot.end_time
    &&& e.status@ == "confirmed"@
}

/// How a booking moves.
pub open spec fn book_moves(req: BookRequest, step: BookingStep, event: BookingEvent, next: BookingStep, action: BookingAction) -> bool {
    match (step, event) {
        (BookingStep::Start, BookingEvent::Begin) => next is Beginning && action is BeginTransaction,
        (BookingStep::Beginning, BookingEvent::TransactionBegun(Err(e))) => next is Done && action == BookingAction::Respond(Err(e)),
        (BookingStep::Beginning, BookingEvent::TransactionBegun(Ok(()))) =>
            next is Locking && action == BookingAction::LockSlot { slot_id: req.slot_id },
        (BookingStep::Locking, BookingEvent::SlotLocked(Err(e))) => next is Done && action == BookingAction::Respond(Err(e)),
        (BookingStep::Locking, BookingEvent::SlotLocked(Ok(None))) =>
            next is Done && (action matches BookingAction::Respond(Err(AppError::NotFound(m))) && m@ == "Time slot not found"@),
        (BookingStep::Locking, BookingEvent::SlotLocked(Ok(Some(slot)))) => {
            if slot.status@ != "available"@ {
                next is Done && (action matches BookingAction::Respond(Err(AppError::Conflict(m)))
                    && m@ == "Time slot is no longer available"@)
            } else {
                &&& next == BookingStep::Marking { slot }
                &&& action matches BookingAction::SetSlotStatus { slot_id, status }
                &&& slot_id == req.slot_id
                &&& status@ == "booked"@
            }
        },
        (BookingStep::Marking { slot }, BookingEvent::StatusSet(Err(e))) => next is Done && action == BookingAction::Respond(Err(e)),
        (BookingStep::Marking { slot }, BookingEvent::StatusSet(Ok(()))) => {
            &&& next == BookingStep::Recording { slot }
            &&& action == BookingAction::CreateAppointment {
                slot_id: req.slot_id,
                customer_id: req.customer_id,
                provider_id: slot.provider_id,
            }
        },
        (BookingStep::Recording { slot }, BookingEvent::AppointmentCreated(Err(e))) =>
            next is Done && action == BookingAction::Respond(Err(e)),
        (BookingStep::Recording { slot }, BookingEvent::AppointmentCreated(Ok(appointment))) =>
            next == BookingStep::Committing { slot, appointment } && action is Commit,
        (BookingStep::Committing { slot, appointment }, BookingEvent::Committed(Err(e))) =>
            next is Done && action == BookingAction::Respond(Err(e)),
        (BookingStep::Committing { slot, appointment }, BookingEvent::Committed(Ok(()))) => {
            &&& next == BookingStep::Announcing { appointment }
            &&& action matches BookingAction::Publish { subject, event }
            &&& subject@ == "appointments.created"@
            &&& booked_event(appointment, slot, event)
        },
        (BookingStep::Announcing { appointment }, BookingEvent::Published) =>
            next is Done && action == BookingAction::Respond(Ok(appointment)),
        _ => false,
    }
}

/// One step of booking `req`: within one transaction, lock the slot, refuse
/// it unless it is still available, mark it booked and record a confirmed
/// appointment; once committed, announce the booking and answer with it.
pub fn book_appointment(req: &BookRequest, step: BookingStep, event: BookingEvent) -> (r: (BookingStep, BookingAction))
    requires
        booking_answers(step, event),
    ensures
        book_moves(*req, step, event, r.0, r.1),
{
    match step {
        BookingStep::Start => (BookingStep::Beginning, BookingAction::BeginTransaction),
        BookingStep::Beginning => match event {
            BookingEvent::TransactionBegun(Err(e)) => (BookingStep::Done, BookingAction::Respond(Err(e))),
            BookingEvent::TransactionBegun(Ok(())) => (BookingStep::Locking, BookingAction::LockSlot { slot_id: req.slot_id }),
            _ => unreached(),
        },
        BookingStep::Locking => match event {
            BookingEvent::SlotLocked(Err(e)) => (BookingStep::Done, BookingAction::Respond(Err(e))),
            BookingEvent::SlotLocked(Ok(None)) =>
                (BookingStep::Done, BookingAction::Respond(Err(AppError::NotFound(owned("Time slot not found"))))),
            BookingEvent::SlotLocked(Ok(Some(slot))) => {
                if !str_eq(slot.status.as_str(), "available") {
                    (BookingStep::Done, BookingAction::Respond(Err(AppError::Conflict(owned("Time slot is no longer available")))))
                } else {
                    let slot_id = req.slot_id;
                    (BookingStep::Marking { slot }, BookingAction::SetSlotStatus { slot_id, status: owned("booked") })
                }
            },
            _ => unreached(),
        },
        BookingStep::Marking { slot } => match event {
            BookingEvent::StatusSet(Err(e)) => (BookingStep::Done, BookingAction::Respond(Err(e))),
            BookingEvent::StatusSet(Ok(())) => {
                let action = BookingAction::CreateAppointment {
                    slot_id: req.slot_id,
                    customer_id: req.customer_id,
                    provider_id: slot.provider_id,
                };
                (BookingStep::Recording { slot }, action)
            },
            _ => unreached(),
        },
        BookingStep::Recording { slot } => match event {
            BookingEvent::AppointmentCreated(Err(e)) => (BookingStep::Done, BookingAction::Respond(Err(e))),
            BookingEvent::AppointmentCreated(Ok(appointment)) =>
                (BookingStep::Committing { slot, appointment }, BookingAction::Commit),
            _ => unreached(),
        },
        BookingStep::Committing { slot, appointment } => match event {
            BookingEvent::Committed(Err(e)) => (BookingStep::Done, BookingAction::Respond(Err(e))),
            BookingEvent::Committed(Ok(())) => {
                let event = AppointmentEvent {
                    appointment_id: appointment.id,
                    slot_id: appointment.slot_id,
                    customer_id: appointment.customer_id,
                    provider_id: appointment.provider_id,
                    start_time: slot.start_time,
                    end_time: slot.end_time,
                    status: owned("confirmed"),
                };
                (
                    BookingStep::Announcing { appointment },
                    BookingAction::Publish { subject: owned("appointments.created"), event },
                )
            },
            _ => unreached(),
        },
        BookingStep::Announcing { appointment } => (BookingStep::Done, BookingAction::Respond(Ok(appointment))),
        BookingStep::Done => unreached(),
    }
}

// ---------------------------------------------------------------------------
// Cancellation

/// Where a cancellation stands.
pub enum CancelStep {
    Start,
    Finding,
    Marking { appointment: Appointment },
    Releasing { appointment: Appointment },
    ReadingSlot { appointment: Appointment },
    Announcing,
    Done,
}

/// What the service does next.
pub enum CancelAction {
    FindAppointment { id: u128 },
    MarkCancelled { id: u128 },
    /// Make the slot available again.
    ReleaseSlot { slot_id: u128 },
    FindSlot { slot_id: u128 },
    /// Publish the event on the subject, where a broker is connected.
    Publish { subject: String, event: AppointmentEvent },
    Respond(Result<(), AppError>),
}

/// What came of the last action.
pub enum CancelEvent {
    Begin,
    AppointmentFound(Result<Option<Appointment>, AppError>),
    Marked(Result<(), AppError>),
    Released(Result<(), AppError>),
    SlotFound(Result<Option<TimeSlot>, AppError>),
    Published,
}

/// The event answers the action that led to `step`.
pub open spec fn cancel_answers(step: CancelStep, event: CancelEvent) -> bool {
    match step {
        CancelStep::Start => event is Begin,
        CancelStep::Finding => event is AppointmentFound,
        CancelStep::Marking { .. } => event is Marked,
        CancelStep::Releasing { .. } => event is Released,
        CancelStep::ReadingSlot { .. } => event is SlotFound,
        CancelStep::Announcing => event is Published,
        CancelStep::Done => false,
    }
}

/// The announcement of a cancellation: the requested id, the appointment's
/// parties and slot, the slot's times (the epoch where the slot is gone),
/// status `cancelled`.
pub open spec fn cancelled_event(id: u128, a: Appointment, slot: Option<TimeSlot>, e: AppointmentEvent) -> bool {
    &&& e.appointment_id == id
    &&& e.slot_id == a.slot_id
    &&& e.customer_id == a.customer_id
    &&& e.provider_id == a.provider_id
    &&& match slot {
        Some(s) => e.start_time == s.start_time && e.end_time == s.end_time,
        None => e.start_time == UtcTime { secs: 0, nanos: 0 } && e.end_time == UtcTime { secs: 0, nanos: 0 },
    }
    &&& e.status@ == "cancelled"@
}

/// How a cancellation of appointment `id` moves.
pub open spec fn cancel_moves(id: u128, step: CancelStep, event: CancelEvent, next: CancelStep, action: CancelAction) -> bool {
    match (step, event) {
        (CancelStep::Start, CancelEvent::Begin) => next is Finding && action == CancelAction::FindAppointment { id },
        (CancelStep::Finding, CancelEvent::AppointmentFound(Err(e))) => next is Done && action == CancelAction::Respond(Err(e)),
        (CancelStep::Finding, CancelEvent::AppointmentFound(Ok(None))) =>
            next is Done && (action matches CancelAction::Respond(Err(AppError::NotFound(m))) && m@ == "Appointment not found"@),
        (CancelStep::Finding, CancelEvent::AppointmentFound(Ok(Some(a)))) => {
            if a.status@ == "cancelled"@ {
                next is Done && (action matches CancelAction::Respond(Err(AppError::Conflict(m)))
                    && m@ == "Appointment already cancelled"@)
            } else {
                next == CancelStep::Marking { appointment: a } && action == CancelAction::MarkCancelled { id }
            }
        },
        (CancelStep::Marking { appointment }, CancelEvent::Marked(Err(e))) => next is Done && action == CancelAction::Respond(Err(e)),
        (CancelStep::Marking { appointment }, CancelEvent::Marked(Ok(()))) =>
            next == CancelStep::Releasing { appointment } && action == CancelAction::ReleaseSlot { slot_id: appointment.slot_id },
        (CancelStep::Releasing { appointment }, CancelEvent::Released(Err(e))) => next is Done && action == CancelAction::Respond(Err(e)),
        (CancelStep::Releasing { appointment }, CancelEvent::Released(Ok(()))) =>
            next == CancelStep::ReadingSlot { appointment } && action == CancelAction::FindSlot { slot_id: appointment.slot_id },
        (CancelStep::ReadingSlot { appointment }, CancelEvent::SlotFound(Err(e))) => next is Done && action == CancelAction::Respond(Err(e)),
        (CancelStep::ReadingSlot { appointment }, CancelEvent::SlotFound(Ok(slot))) => {
            &&& next is Announcing
            &&& action matches CancelAction::Publish { subject, event }
            &&& subject@ == "appointments.cancelled"@
            &&& cancelled_event(id, appointment, slot, event)
        },
        (CancelStep::Announcing, CancelEvent::Published) => next is Done && action == CancelAction::Respond(Ok(())),
        _ => false,
    }
}

/// One step of cancelling appointment `id`: refuse an unknown or already
/// cancelled appointment, mark it cancelled, make its slot available again,
/// read the slot's times and announce the cancellation.
pub fn cancel_appointment(id: u128, step: CancelStep, event: CancelEvent) -> (r: (CancelStep, CancelAction))
    requires
        cancel_answers(step, event),
    ensures
        cancel_moves(id, step, event, r.0, r.1),
{
    match step {
        CancelStep::Start => (CancelStep::Finding, CancelAction::FindAppointment { id }),
        CancelStep::Finding => match event {
            CancelEvent::AppointmentFound(Err(e)) => (CancelStep::Done, CancelAction::Respond(Err(e))),
            CancelEvent::AppointmentFound(Ok(None)) =>
                (CancelStep::Done, CancelAction::Respond(Err(AppError::NotFound(owned("Appointment not found"))))),
            CancelEvent::AppointmentFound(Ok(Some(a))) => {
                if str_eq(a.status.as_str(), "cancelled") {
                    (CancelStep::Done, CancelAction::Respond(Err(AppError::Conflict(owned("Appointment already cancelled")))))
                } else {
                    (CancelStep::Marking { appointment: a }, CancelAction::MarkCancelled { id })
                }
            },
            _ => unreached(),
        },
        CancelStep::Marking { appointment } => match event {
            CancelEvent::Marked(Err(e)) => (CancelStep::Done, CancelAction::Respond(Err(e))),
            CancelEvent::Marked(Ok(())) => {
                let slot_id = appointment.slot_id;
                (CancelStep::Releasing { appointment }, CancelAction::ReleaseSlot { slot_id })
            },
            _ => unreached(),
        },
        CancelStep::Releasing { appointment } => match event {
            CancelEvent::Released(Err(e)) => (CancelStep::Done, CancelAction::Respond(Err(e))),
            CancelEvent::Released(Ok(())) => {
                let slot_id = appointment.slot_id;
                (CancelStep::ReadingSlot { appointment }, CancelAction::FindSlot { slot_id })
            },
            _ => unreached(),
        },
        CancelStep::ReadingSlot { appointment } => match event {
            CancelEvent::SlotFound(Err(e)) => (CancelStep::Done, CancelAction::Respond(Err(e))),
            CancelEvent::SlotFound(Ok(slot)) => {
                let (start_time, end_time) = match slot {
                    Some(s) => (s.start_time, s.end_time),
                    None => (UtcTime::epoch(), UtcTime::epoch()),
                };
                let event = AppointmentEvent {
                    appointment_id: id,
                    slot_id: appointment.slot_id,
                    customer_id: appointment.customer_id,
                    provider_id: appointment.provider_id,
                    start_time,
                    end_time,
                    status: owned("cancelled"),
                };
                (CancelStep::Announcing, CancelAction::Publish { subject: owned("appointments.cancelled"), event })
            },
            _ => unreached(),
        },
        CancelStep::Announcing => (CancelStep::Done, CancelAction::Respond(Ok(()))),
        CancelStep::Done => unreached(),
    }
}

} // verus!
