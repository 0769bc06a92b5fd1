use booking::notification::{subject_kind, EventKind};
use booking::appointment::{
    book_appointment, cancel_appointment, create_slots, get_available_slots, my_appointments, Appointment,
    AppointmentListing, BookRequest, BookingAction, BookingEvent, BookingStep, CancelAction, CancelEvent, CancelStep,
    CreateSlotsRequest, SlotInput, SlotsQuery, TimeSlot,
};
use booking::errors::AppError;
use booking::ids::uuid_to_string;
use booking::time::UtcTime;

fn t(secs: i64) -> UtcTime {
    UtcTime { secs, nanos: 0 }
}

fn slot(status: &str) -> TimeSlot {
    TimeSlot { id: 10, provider_id: 20, start_time: t(1000), end_time: t(2800), status: status.to_string(), created_at: t(1) }
}

fn appointment(status: &str) -> Appointment {
    Appointment { id: 30, slot_id: 10, customer_id: 40, provider_id: 20, status: status.to_string(), created_at: t(5), updated_at: t(5) }
}

#[test]
fn booking_runs_the_saga() {
    let req = BookRequest { slot_id: 10, customer_id: 40 };
    let (s, a) = book_appointment(&req, BookingStep::Start, BookingEvent::Begin);
    assert!(matches!(a, BookingAction::BeginTransaction));
    let (s, a) = book_appointment(&req, s, BookingEvent::TransactionBegun(Ok(())));
    assert!(matches!(a, BookingAction::LockSlot { slot_id: 10 }));
    let (s, a) = book_appointment(&req, s, BookingEvent::SlotLocked(Ok(Some(slot("available")))));
    assert!(matches!(a, BookingAction::SetSlotStatus { slot_id: 10, ref status } if status == "booked"));
    let (s, a) = book_appointment(&req, s, BookingEvent::StatusSet(Ok(())));
    assert!(matches!(a, BookingAction::CreateAppointment { slot_id: 10, customer_id: 40, provider_id: 20 }));
    let (s, a) = book_appointment(&req, s, BookingEvent::AppointmentCreated(Ok(appointment("confirmed"))));
    assert!(matches!(a, BookingAction::Commit));
    let (s, a) = book_appointment(&req, s, BookingEvent::Committed(Ok(())));
    match a {
        BookingAction::Publish { subject, event } => {
            assert_eq!(subject, "appointments.created");
            assert_eq!((event.appointment_id, event.slot_id, event.customer_id, event.provider_id), (30, 10, 40, 20));
            assert_eq!((event.start_time, event.end_time), (t(1000), t(2800)));
            assert_eq!(event.status, "confirmed");
        }
        _ => panic!(),
    }
    let (s, a) = book_appointment(&req, s, BookingEvent::Published);
    assert!(matches!(s, BookingStep::Done));
    assert!(matches!(a, BookingAction::Respond(Ok(ref ap)) if ap.id == 30));
}

#[test]
fn booking_refusals() {
    let req = BookRequest { slot_id: 10, customer_id: 40 };
    let (s, a) = book_appointment(&req, BookingStep::Locking, BookingEvent::SlotLocked(Ok(None)));
    assert!(matches!(s, BookingStep::Done));
    assert!(matches!(a, BookingAction::Respond(Err(AppError::NotFound(m))) if m == "Time slot not found"));
    let (s, a) = book_appointment(&req, BookingStep::Locking, BookingEvent::SlotLocked(Ok(Some(slot("booked")))));
    assert!(matches!(s, BookingStep::Done));
    assert!(matches!(a, BookingAction::Respond(Err(AppError::Conflict(m))) if m == "Time slot is no longer available"));
    let (_, a) = book_appointment(&req, BookingStep::Beginning, BookingEvent::TransactionBegun(Err(AppError::Internal("pool".into()))));
    assert!(matches!(a, BookingAction::Respond(Err(AppError::Internal(m))) if m == "pool"));
    let step = BookingStep::Committing { slot: slot("available"), appointment: appointment("confirmed") };
    let (_, a) = book_appointment(&req, step, BookingEvent::Committed(Err(AppError::Internal("commit".into()))));
    assert!(matches!(a, BookingAction::Respond(Err(AppError::Internal(m))) if m == "commit"));
}

#[test]
fn cancellation_frees_the_slot() {
    let (s, a) = cancel_appointment(30, CancelStep::Start, CancelEvent::Begin);
    assert!(matches!(a, CancelAction::FindAppointment { id: 30 }));
    let (s, a) = cancel_appointment(30, s, CancelEvent::AppointmentFound(Ok(Some(appointment("confirmed")))));
    assert!(matches!(a, CancelAction::MarkCancelled { id: 30 }));
    let (s, a) = cancel_appointment(30, s, CancelEvent::Marked(Ok(())));
    assert!(matches!(a, CancelAction::ReleaseSlot { slot_id: 10 }));
    let (s, a) = cancel_appointment(30, s, CancelEvent::Released(Ok(())));
    assert!(matches!(a, CancelAction::FindSlot { slot_id: 10 }));
    let (s, a) = cancel_appointment(30, s, CancelEvent::SlotFound(Ok(Some(slot("available")))));
    match a {
        CancelAction::Publish { subject, event } => {
            assert_eq!(subject, "appointments.cancelled");
            assert_eq!((event.appointment_id, event.slot_id, event.customer_id, event.provider_id), (30, 10, 40, 20));
            assert_eq!((event.start_time, event.end_time), (t(1000), t(2800)));
            assert_eq!(event.status, "cancelled");
        }
        _ => panic!(),
    }
    let (s, a) = cancel_appointment(30, s, CancelEvent::Published);
    assert!(matches!(s, CancelStep::Done));
    assert!(matches!(a, CancelAction::Respond(Ok(()))));
}

#[test]
fn cancellation_of_a_vanished_slot_announces_the_epoch() {
    let step = CancelStep::ReadingSlot { appointment: appointment("confirmed") };
    let (_, a) = cancel_appointment(30, step, CancelEvent::SlotFound(Ok(None)));
    match a {
        CancelAction::Publish { event, .. } => assert_eq!((event.start_time, event.end_time), (t(0), t(0))),
        _ => panic!(),
    }
}

#[test]
fn cancellation_refusals() {
    let (_, a) = cancel_appointment(30, CancelStep::Finding, CancelEvent::AppointmentFound(Ok(None)));
    assert!(matches!(a, CancelAction::Respond(Err(AppError::NotFound(m))) if m == "Appointment not found"));
    let (s, a) = cancel_appointment(30, CancelStep::Finding, CancelEvent::AppointmentFound(Ok(Some(appointment("cancelled")))));
    assert!(matches!(s, CancelStep::Done));
    assert!(matches!(a, CancelAction::Respond(Err(AppError::Conflict(m))) if m == "Appointment already cancelled"));
    let step = CancelStep::Marking { appointment: appointment("confirmed") };
    let (_, a) = cancel_appointment(30, step, CancelEvent::Marked(Err(AppError::Internal("db".into()))));
    assert!(matches!(a, CancelAction::Respond(Err(AppError::Internal(m))) if m == "db"));
}

#[test]
fn slot_offers() {
    let me = || Some(uuid_to_string(1));
    let provider = || Some("provider".to_string());
    let empty = CreateSlotsRequest { provider_id: 1, slots: vec![] };
    assert!(matches!(create_slots(&empty, me(), provider()), Err(AppError::BadRequest(m)) if m == "At least one slot is required"));
    let req = CreateSlotsRequest {
        provider_id: 1,
        slots: vec![SlotInput { start_time: t(1), end_time: t(2) }, SlotInput { start_time: t(3), end_time: t(4) }],
    };
    assert_eq!(create_slots(&req, me(), provider()).unwrap(), vec![(t(1), t(2)), (t(3), t(4))]);
    let q = SlotsQuery { provider_id: 5, date: Some("2024-05-01".to_string()), all: None };
    let s = get_available_slots(&q);
    assert_eq!((s.provider_id, s.date.as_deref()), (5, Some("2024-05-01")));
}

#[test]
fn listings_by_role() {
    assert!(matches!(my_appointments(1, Some("provider".into()), None), AppointmentListing::ByProvider(1)));
    assert!(matches!(my_appointments(1, None, Some("provider".into())), AppointmentListing::ByProvider(1)));
    assert!(matches!(my_appointments(1, Some("user".into()), Some("provider".into())), AppointmentListing::ByCustomer(1)));
    assert!(matches!(my_appointments(1, None, None), AppointmentListing::ByCustomer(1)));
    assert!(matches!(my_appointments(1, Some("Provider".into()), None), AppointmentListing::ByCustomer(1)));
}

#[test]
fn announcements_use_the_subjects_notifications_hear() {
    let req = BookRequest { slot_id: 10, customer_id: 40 };
    let step = BookingStep::Committing { slot: slot("available"), appointment: appointment("confirmed") };
    match book_appointment(&req, step, BookingEvent::Committed(Ok(()))).1 {
        BookingAction::Publish { subject, .. } => assert_eq!(subject_kind(&subject), Some(EventKind::Created)),
        _ => panic!(),
    }
    let step = CancelStep::ReadingSlot { appointment: appointment("confirmed") };
    match cancel_appointment(30, step, CancelEvent::SlotFound(Ok(None))).1 {
        CancelAction::Publish { subject, .. } => assert_eq!(subject_kind(&subject), Some(EventKind::Cancelled)),
        _ => panic!(),
    }
}

#[test]
fn cancel_releases_the_slot_the_booking_took() {
    let req = BookRequest { slot_id: 10, customer_id: 40 };
    let (s, _) = book_appointment(&req, BookingStep::Locking, BookingEvent::SlotLocked(Ok(Some(slot("available")))));
    let marked = match book_appointment(&req, BookingStep::Locking, BookingEvent::SlotLocked(Ok(Some(slot("available"))))).1 {
        BookingAction::SetSlotStatus { slot_id, .. } => slot_id,
        _ => panic!(),
    };
    let (_, created) = book_appointment(&req, s, BookingEvent::StatusSet(Ok(())));
    assert!(matches!(created, BookingAction::CreateAppointment { slot_id: 10, .. }));
    let booked = appointment("confirmed");
    let (s, _) = cancel_appointment(booked.id, CancelStep::Finding, CancelEvent::AppointmentFound(Ok(Some(booked))));
    match cancel_appointment(30, s, CancelEvent::Marked(Ok(()))).1 {
        CancelAction::ReleaseSlot { slot_id } => assert_eq!(slot_id, marked),
        _ => panic!(),
    }
}

#[test]
fn slot_offers_need_the_providers_own_identity() {
    let req = CreateSlotsRequest { provider_id: 1, slots: vec![SlotInput { start_time: t(1), end_time: t(2) }] };
    let refused = |r: Result<Vec<(UtcTime, UtcTime)>, AppError>| {
        matches!(r, Err(AppError::Forbidden(m)) if m == "Only a provider may offer slots, and only their own")
    };
    assert!(refused(create_slots(&req, Some(uuid_to_string(1)), Some("user".to_string()))));
    assert!(refused(create_slots(&req, Some(uuid_to_string(2)), Some("provider".to_string()))));
    assert!(refused(create_slots(&req, None, Some("provider".to_string()))));
    assert!(refused(create_slots(&req, Some(uuid_to_string(1)), None)));
    assert!(refused(create_slots(&req, Some("garbage".to_string()), Some("provider".to_string()))));
    let empty = CreateSlotsRequest { provider_id: 1, slots: vec![] };
    assert!(refused(create_slots(&empty, Some(uuid_to_string(2)), Some("provider".to_string()))));
    assert_eq!(create_slots(&req, Some(uuid_to_string(1)), Some("provider".to_string())).unwrap(), vec![(t(1), t(2))]);
}

#[test]
fn refused_booking_run_never_commits_or_announces() {
    let req = BookRequest { slot_id: 10, customer_id: 40 };
    let mut actions = Vec::new();
    let (s, a) = book_appointment(&req, BookingStep::Start, BookingEvent::Begin);
    actions.push(a);
    let (s, a) = book_appointment(&req, s, BookingEvent::TransactionBegun(Ok(())));
    actions.push(a);
    let (s, a) = book_appointment(&req, s, BookingEvent::SlotLocked(Ok(Some(slot("available")))));
    actions.push(a);
    let (s, a) = book_appointment(&req, s, BookingEvent::StatusSet(Err(AppError::Internal("update".into()))));
    assert!(matches!(s, BookingStep::Done));
    assert!(matches!(a, BookingAction::Respond(Err(AppError::Internal(ref m))) if m == "update"));
    actions.push(a);
    assert!(actions.iter().all(|a| !matches!(a, BookingAction::Commit | BookingAction::Publish { .. })));
}

#[test]
fn refused_cancel_run_announces_nothing() {
    let (s, a) = cancel_appointment(30, CancelStep::Start, CancelEvent::Begin);
    assert!(!matches!(a, CancelAction::Publish { .. }));
    let (s, a) = cancel_appointment(30, s, CancelEvent::AppointmentFound(Ok(None)));
    assert!(matches!(s, CancelStep::Done));
    assert!(matches!(a, CancelAction::Respond(Err(AppError::NotFound(_)))));
}

fn copy_slot(s: &TimeSlot) -> TimeSlot {
    TimeSlot { id: s.id, provider_id: s.provider_id, start_time: s.start_time, end_time: s.end_time, status: s.status.clone(), created_at: s.created_at }
}

fn copy_appointment(a: &Appointment) -> Appointment {
    Appointment {
        id: a.id,
        slot_id: a.slot_id,
        customer_id: a.customer_id,
        provider_id: a.provider_id,
        status: a.status.clone(),
        created_at: a.created_at,
        updated_at: a.updated_at,
    }
}

struct Store {
    slots: std::collections::HashMap<u128, TimeSlot>,
    appointments: std::collections::HashMap<u128, Appointment>,
}

fn book_against(store: &mut Store, req: &BookRequest, new_id: u128) -> Result<Appointment, AppError> {
    let (mut step, mut event) = (BookingStep::Start, BookingEvent::Begin);
    let mut pending_status: Option<(u128, String)> = None;
    let mut pending_appointment: Option<Appointment> = None;
    loop {
        let (next, action) = book_appointment(req, step, event);
        step = next;
        event = match action {
            BookingAction::BeginTransaction => BookingEvent::TransactionBegun(Ok(())),
            BookingAction::LockSlot { slot_id } => BookingEvent::SlotLocked(Ok(store.slots.get(&slot_id).map(copy_slot))),
            BookingAction::SetSlotStatus { slot_id, status } => {
                pending_status = Some((slot_id, status));
                BookingEvent::StatusSet(Ok(()))
            }
            BookingAction::CreateAppointment { slot_id, customer_id, provider_id } => {
                let a = Appointment { id: new_id, slot_id, customer_id, provider_id, status: "confirmed".to_string(), created_at: t(9), updated_at: t(9) };
                pending_appointment = Some(copy_appointment(&a));
                BookingEvent::AppointmentCreated(Ok(a))
            }
            BookingAction::Commit => {
                if let Some((id, status)) = pending_status.take() {
                    store.slots.get_mut(&id).unwrap().status = status;
                }
                if let Some(a) = pending_appointment.take() {
                    store.appointments.insert(a.id, a);
                }
                BookingEvent::Committed(Ok(()))
            }
            BookingAction::Publish { .. } => BookingEvent::Published,
            BookingAction::Respond(r) => return r,
        };
    }
}

fn cancel_against(store: &mut Store, id: u128) -> Result<(), AppError> {
    let (mut step, mut event) = (CancelStep::Start, CancelEvent::Begin);
    loop {
        let (next, action) = cancel_appointment(id, step, event);
        step = next;
        event = match action {
            CancelAction::FindAppointment { id } => CancelEvent::AppointmentFound(Ok(store.appointments.get(&id).map(copy_appointment))),
            CancelAction::MarkCancelled { id } => {
                store.appointments.get_mut(&id).unwrap().status = "cancelled".to_string();
                CancelEvent::Marked(Ok(()))
            }
            CancelAction::ReleaseSlot { slot_id } => {
                store.slots.get_mut(&slot_id).unwrap().status = "available".to_string();
                CancelEvent::Released(Ok(()))
            }
            CancelAction::FindSlot { slot_id } => CancelEvent::SlotFound(Ok(store.slots.get(&slot_id).map(copy_slot))),
            CancelAction::Publish { .. } => CancelEvent::Published,
            CancelAction::Respond(r) => return r,
        };
    }
}

#[test]
fn booking_and_cancelling_round_trip_over_a_store() {
    let mut store = Store { slots: std::collections::HashMap::new(), appointments: std::collections::HashMap::new() };
    store.slots.insert(10, slot("available"));
    let req = BookRequest { slot_id: 10, customer_id: 40 };
    let a = book_against(&mut store, &req, 30).unwrap();
    assert_eq!(store.slots[&10].status, "booked");
    assert_eq!(store.appointments[&30].status, "confirmed");
    assert!(matches!(book_against(&mut store, &BookRequest { slot_id: 10, customer_id: 41 }, 31), Err(AppError::Conflict(_))));
    assert_eq!(store.appointments.len(), 1);
    cancel_against(&mut store, a.id).unwrap();
    assert_eq!(store.slots[&10].status, "available");
    assert_eq!(store.appointments[&30].status, "cancelled");
    assert!(matches!(cancel_against(&mut store, a.id), Err(AppError::Conflict(m)) if m == "Appointment already cancelled"));
    let again = book_against(&mut store, &BookRequest { slot_id: 10, customer_id: 41 }, 32).unwrap();
    assert_eq!((again.slot_id, store.slots[&10].status.as_str()), (10, "booked"));
}
