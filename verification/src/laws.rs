//! Properties that span several operations of the platform.

use vstd::prelude::*;
use vstd::utf8::encode_utf8;
use crate::auth::{
    issues_access, password_check, login_moves, refresh_moves, register_moves, AuthAction, AuthEvent, AuthResponse, AuthStep,
    RegisterRequest, User,
};
use crate::config::JwtConfig;
use crate::appointment::{
    book_moves, booked_event, cancel_moves, cancelled_event, listing_for, Appointment, AppointmentListing, BookRequest,
    BookingAction, BookingEvent, BookingStep, CancelAction, CancelEvent, CancelStep, TimeSlot,
};
use crate::errors::AppError;
use crate::text::seq_starts_with;
use crate::gateway::{compose_moves, forwarded_headers, header_value, ComposeAction, ComposeEvent, ComposeStep, ComposedPlan, Header};
use crate::json::json_value_at;
use crate::notification::{event_kind_of, shown_as, EventKind, Notification, NotificationResponse};
use crate::ids::{requested_user, uuid_parsed, uuid_text};
use crate::roles::{role_name, role_named, lemma_role_name_round_trip, UserRole};

verus! {

/// An account created by registering can log in with the email and password
/// it was registered with: the login, given the stored account, goes on to
/// issue tokens for it in the role it registered for.
pub proof fn law_registered_account_logs_in(
    config: JwtConfig,
    payload: RegisterRequest,
    checking: AuthAction,
    role: UserRole,
    created: AuthStep,
    email: String,
    password_hash: String,
    stored_role: String,
    stored: User,
    next: AuthStep,
    action: AuthAction,
)
    requires
        register_moves(config, payload, AuthStep::Start, AuthEvent::Begin, AuthStep::CheckingEmail { role }, checking),
        register_moves(
            config,
            payload,
            AuthStep::CheckingEmail { role },
            AuthEvent::EmailChecked(Ok(false)),
            created,
            AuthAction::CreateUser { email, password_hash, stored_role },
        ),
        stored.email == email,
        stored.password_hash == password_hash,
        stored.role == stored_role,
        login_moves(
            config,
            payload.email@,
            payload.password@,
            AuthStep::FindingUserByEmail,
            AuthEvent::UserFound(Ok(Some(stored))),
            next,
            action,
        ),
    ensures
        issues_access(config, stored, role, next, action),
{
}

/// The identity the gateway attaches to an admitted request leads the
/// services to the token's own account, and to the provider's view of
/// appointments exactly when the token names a provider.
pub proof fn law_gateway_identity_selects_listing(c: crate::auth::Claims, user_id_header: Seq<char>, role_header: Seq<char>)
    requires
        user_id_header == uuid_text(c.sub),
        uuid_parsed(user_id_header) == Some(c.sub),
        role_header == role_name(c.role),
    ensures
        requested_user(None, Some(user_id_header)) == Some(c.sub),
        role_named(role_header) == Some(c.role),
        listing_for(c.sub, Some(role_header)) == (if c.role == UserRole::Provider {
            AppointmentListing::ByProvider(c.sub)
        } else {
            AppointmentListing::ByCustomer(c.sub)
        }),
{
    reveal_strlit("provider");
    lemma_role_name_round_trip(c.role);
    assert(role_name(UserRole::Provider) == "provider"@);
    assert(role_name(UserRole::User).len() != "provider"@.len());
    assert(role_name(UserRole::Admin).len() != "provider"@.len());
}

/// A run of the booking protocol: each step answers the last action.
pub open spec fn booking_run(req: BookRequest, steps: Seq<BookingStep>, events: Seq<BookingEvent>, actions: Seq<BookingAction>) -> bool {
    &&& steps.len() == events.len() + 1
    &&& actions.len() == events.len()
    &&& steps[0] is Start
    &&& forall|i: int| #![trigger events[i]] 0 <= i < events.len() ==> book_moves(req, steps[i], events[i], steps[i + 1], actions[i])
}

/// How far a booking has come.
pub open spec fn booking_rank(s: BookingStep) -> int {
    match s {
        BookingStep::Start => 0,
        BookingStep::Beginning => 1,
        BookingStep::Locking => 2,
        BookingStep::Marking { .. } => 3,
        BookingStep::Recording { .. } => 4,
        BookingStep::Committing { .. } => 5,
        BookingStep::Announcing { .. } => 6,
        BookingStep::Done => 7,
    }
}

proof fn lemma_booking_ranks(req: BookRequest, steps: Seq<BookingStep>, events: Seq<BookingEvent>, actions: Seq<BookingAction>, k: int)
    requires
        booking_run(req, steps, events, actions),
        0 <= k < events.len(),
    ensures
        booking_rank(steps[k]) == k,
    decreases k,
{
    if k > 0 {
        lemma_booking_ranks(req, steps, events, actions, k - 1);
        assert(book_moves(req, steps[k - 1], events[k - 1], steps[k], actions[k - 1]));
        assert(book_moves(req, steps[k], events[k], steps[k + 1], actions[k]));
    }
}

/// A booking answers with an appointment only after the whole saga: the
/// slot was locked and found available, marked booked, the appointment
/// recorded for the customer with the slot's provider, the transaction
/// committed, and the booking announced as confirmed with the slot's times.
pub proof fn law_booking_success_runs_the_saga(
    req: BookRequest,
    steps: Seq<BookingStep>,
    events: Seq<BookingEvent>,
    actions: Seq<BookingAction>,
    a: Appointment,
)
    requires
        booking_run(req, steps, events, actions),
        actions.len() > 0,
        actions.last() == BookingAction::Respond(Ok(a)),
    ensures
        actions.len() == 7,
        actions[0] is BeginTransaction,
        actions[1] == (BookingAction::LockSlot { slot_id: req.slot_id }),
        (events[2] matches BookingEvent::SlotLocked(Ok(Some(slot))) && {
            &&& slot.status@ == "available"@
            &&& actions[2] matches BookingAction::SetSlotStatus { slot_id, status }
            &&& slot_id == req.slot_id
            &&& status@ == "booked"@
            &&& actions[3] == (BookingAction::CreateAppointment {
                slot_id: req.slot_id,
                customer_id: req.customer_id,
                provider_id: slot.provider_id,
            })
            &&& events[4] == BookingEvent::AppointmentCreated(Ok(a))
            &&& actions[4] is Commit
            &&& actions[5] matches BookingAction::Publish { subject, event }
            &&& subject@ == "appointments.created"@
            &&& booked_event(a, slot, event)
        }),
{
    let n: int = events.len() as int;
    lemma_booking_ranks(req, steps, events, actions, n - 1);
    assert(book_moves(req, steps[n - 1], events[n - 1], steps[n], actions[n - 1]));
    assert(steps[n - 1] is Announcing);
    assert(n == 7);
    lemma_booking_ranks(req, steps, events, actions, 2);
    lemma_booking_ranks(req, steps, events, actions, 3);
    lemma_booking_ranks(req, steps, events, actions, 4);
    lemma_booking_ranks(req, steps, events, actions, 5);
    assert(book_moves(req, steps[0], events[0], steps[1], actions[0]));
    assert(book_moves(req, steps[1], events[1], steps[2], actions[1]));
    assert(book_moves(req, steps[2], events[2], steps[3], actions[2]));
    assert(book_moves(req, steps[3], events[3], steps[4], actions[3]));
    assert(book_moves(req, steps[4], events[4], steps[5], actions[4]));
    assert(book_moves(req, steps[5], events[5], steps[6], actions[5]));
    assert(book_moves(req, steps[6], events[6], steps[7], actions[6]));
    assert(booking_rank(steps[2]) == 2);
    assert(booking_rank(steps[3]) == 3);
    assert(booking_rank(steps[4]) == 4);
    assert(booking_rank(steps[5]) == 5);
    assert(booking_rank(steps[6]) == 6);
}

/// A booking whose slot is no longer available is refused with a conflict
/// as soon as the slot is read: nothing is marked, recorded or announced.
pub proof fn law_unavailable_slot_is_refused(
    req: BookRequest,
    steps: Seq<BookingStep>,
    events: Seq<BookingEvent>,
    actions: Seq<BookingAction>,
    slot: TimeSlot,
)
    requires
        booking_run(req, steps, events, actions),
        events.len() > 2,
        events[2] == BookingEvent::SlotLocked(Ok(Some(slot))),
        slot.status@ != "available"@,
    ensures
        events.len() == 3,
        actions[2] matches BookingAction::Respond(Err(AppError::Conflict(m))) && m@ == "Time slot is no longer available"@,
{
    lemma_booking_ranks(req, steps, events, actions, 2);
    assert(book_moves(req, steps[2], events[2], steps[3], actions[2]));
    if events.len() > 3 {
        assert(book_moves(req, steps[3], events[3], steps[4], actions[3]));
    }
}

/// A run of the cancellation protocol for appointment `id`.
pub open spec fn cancel_run(id: u128, steps: Seq<CancelStep>, events: Seq<CancelEvent>, actions: Seq<CancelAction>) -> bool {
    &&& steps.len() == events.len() + 1
    &&& actions.len() == events.len()
    &&& steps[0] is Start
    &&& forall|i: int| #![trigger events[i]] 0 <= i < events.len() ==> cancel_moves(id, steps[i], events[i], steps[i + 1], actions[i])
}

/// How far a cancellation has come.
pub open spec fn cancel_rank(s: CancelStep) -> int {
    match s {
        CancelStep::Start => 0,
        CancelStep::Finding => 1,
        CancelStep::Marking { .. } => 2,
        CancelStep::Releasing { .. } => 3,
        CancelStep::ReadingSlot { .. } => 4,
        CancelStep::Announcing => 5,
        CancelStep::Done => 6,
    }
}

proof fn lemma_cancel_ranks(id: u128, steps: Seq<CancelStep>, events: Seq<CancelEvent>, actions: Seq<CancelAction>, k: int)
    requires
        cancel_run(id, steps, events, actions),
        0 <= k < events.len(),
    ensures
        cancel_rank(steps[k]) == k,
    decreases k,
{
    if k > 0 {
        lemma_cancel_ranks(id, steps, events, actions, k - 1);
        assert(cancel_moves(id, steps[k - 1], events[k - 1], steps[k], actions[k - 1]));
        assert(cancel_moves(id, steps[k], events[k], steps[k + 1], actions[k]));
    }
}

/// A cancellation succeeds only after the whole protocol: the appointment was
/// found and not yet cancelled, it was marked cancelled, its own slot was
/// made available again, and the cancellation was announced.
pub proof fn law_cancel_success_frees_the_slot(
    id: u128,
    steps: Seq<CancelStep>,
    events: Seq<CancelEvent>,
    actions: Seq<CancelAction>,
)
    requires
        cancel_run(id, steps, events, actions),
        actions.len() > 0,
        actions.last() == CancelAction::Respond(Ok(())),
    ensures
        actions.len() == 6,
        actions[0] == (CancelAction::FindAppointment { id }),
        (events[1] matches CancelEvent::AppointmentFound(Ok(Some(a))) && {
            &&& a.status@ != "cancelled"@
            &&& actions[1] == (CancelAction::MarkCancelled { id })
            &&& actions[2] == (CancelAction::ReleaseSlot { slot_id: a.slot_id })
            &&& actions[3] == (CancelAction::FindSlot { slot_id: a.slot_id })
            &&& events[4] matches CancelEvent::SlotFound(Ok(slot))
            &&& actions[4] matches CancelAction::Publish { subject, event }
            &&& subject@ == "appointments.cancelled"@
            &&& cancelled_event(id, a, slot, event)
        }),
{
    let n: int = events.len() as int;
    lemma_cancel_ranks(id, steps, events, actions, n - 1);
    assert(cancel_moves(id, steps[n - 1], events[n - 1], steps[n], actions[n - 1]));
    assert(n == 6);
    lemma_cancel_ranks(id, steps, events, actions, 1);
    lemma_cancel_ranks(id, steps, events, actions, 2);
    lemma_cancel_ranks(id, steps, events, actions, 3);
    lemma_cancel_ranks(id, steps, events, actions, 4);
    assert(cancel_moves(id, steps[0], events[0], steps[1], actions[0]));
    assert(cancel_moves(id, steps[1], events[1], steps[2], actions[1]));
    assert(cancel_moves(id, steps[2], events[2], steps[3], actions[2]));
    assert(cancel_moves(id, steps[3], events[3], steps[4], actions[3]));
    assert(cancel_moves(id, steps[4], events[4], steps[5], actions[4]));
    assert(cancel_moves(id, steps[5], events[5], steps[6], actions[5]));
}

/// Cancelling an appointment that is already cancelled is refused with a
/// conflict as soon as it is read: nothing is marked, released or announced.
pub proof fn law_second_cancel_is_refused(
    id: u128,
    steps: Seq<CancelStep>,
    events: Seq<CancelEvent>,
    actions: Seq<CancelAction>,
    a: Appointment,
)
    requires
        cancel_run(id, steps, events, actions),
        events.len() > 1,
        events[1] == CancelEvent::AppointmentFound(Ok(Some(a))),
        a.status@ == "cancelled"@,
    ensures
        events.len() == 2,
        actions[1] matches CancelAction::Respond(Err(AppError::Conflict(m))) && m@ == "Appointment already cancelled"@,
{
    lemma_cancel_ranks(id, steps, events, actions, 1);
    assert(cancel_moves(id, steps[1], events[1], steps[2], actions[1]));
    if events.len() > 2 {
        assert(cancel_moves(id, steps[2], events[2], steps[3], actions[2]));
    }
}

/// A login for an unknown email and a login with a wrong password are
/// refused alike, so a refusal does not tell which accounts exist.
pub proof fn law_login_refusals_are_alike(
    config: JwtConfig,
    email: Seq<char>,
    password: Seq<char>,
    user: User,
    next1: AuthStep,
    action1: AuthAction,
    next2: AuthStep,
    action2: AuthAction,
)
    requires
        login_moves(config, email, password, AuthStep::FindingUserByEmail, AuthEvent::UserFound(Ok(None)), next1, action1),
        password_check(password, user.password_hash@) == Ok::<bool, Seq<char>>(false),
        login_moves(config, email, password, AuthStep::FindingUserByEmail, AuthEvent::UserFound(Ok(Some(user))), next2, action2),
    ensures
        next1 is Done && next2 is Done,
        action1 matches AuthAction::Respond(Err(AppError::Unauthorized(m1))) && action2 matches AuthAction::Respond(Err(AppError::Unauthorized(m2))) && m1@ == m2@,
{
}

/// What the appointment service announces, the notification service hears
/// as the matching kind: bookings as confirmations, cancellations as
/// cancellations.
pub proof fn law_announcements_reach_notifications(
    req: BookRequest,
    slot: TimeSlot,
    a: Appointment,
    booked_next: BookingStep,
    booked: BookingAction,
    id: u128,
    found: Appointment,
    slot_read: Option<TimeSlot>,
    cancelled_next: CancelStep,
    cancelled: CancelAction,
)
    requires
        book_moves(req, BookingStep::Committing { slot, appointment: a }, BookingEvent::Committed(Ok(())), booked_next, booked),
        cancel_moves(id, CancelStep::ReadingSlot { appointment: found }, CancelEvent::SlotFound(Ok(slot_read)), cancelled_next, cancelled),
    ensures
        booked matches BookingAction::Publish { subject, event } && event_kind_of(subject@) == Some(EventKind::Created),
        cancelled matches CancelAction::Publish { subject, event } && event_kind_of(subject@) == Some(EventKind::Cancelled),
{
    reveal_strlit("appointments.created");
    reveal_strlit("appointments.cancelled");
    assert("appointments.created"@ != "appointments.cancelled"@) by {
        assert("appointments.created"@.len() != "appointments.cancelled"@.len());
    }
}

/// Cancelling undoes what booking did to the slot: the slot a successful
/// booking marked booked is the one a successful cancellation of that
/// appointment makes available again (the store keeps the appointment's
/// slot as the booking recorded it).
pub proof fn law_cancel_releases_the_booked_slot(
    req: BookRequest,
    b_steps: Seq<BookingStep>,
    b_events: Seq<BookingEvent>,
    b_actions: Seq<BookingAction>,
    booked: Appointment,
    c_steps: Seq<CancelStep>,
    c_events: Seq<CancelEvent>,
    c_actions: Seq<CancelAction>,
    stored: Appointment,
)
    requires
        booking_run(req, b_steps, b_events, b_actions),
        b_actions.len() > 0,
        b_actions.last() == BookingAction::Respond(Ok(booked)),
        booked.slot_id == req.slot_id,
        cancel_run(booked.id, c_steps, c_events, c_actions),
        c_actions.len() > 0,
        c_actions.last() == CancelAction::Respond(Ok(())),
        c_events[1] == CancelEvent::AppointmentFound(Ok(Some(stored))),
        stored.slot_id == booked.slot_id,
    ensures
        b_actions[2] matches BookingAction::SetSlotStatus { slot_id, status } && slot_id == req.slot_id && status@ == "booked"@,
        c_actions[2] == (CancelAction::ReleaseSlot { slot_id: req.slot_id }),
{
    law_booking_success_runs_the_saga(req, b_steps, b_events, b_actions, booked);
    law_cancel_success_frees_the_slot(booked.id, c_steps, c_events, c_actions);
}

/// A booking that is refused never announces anything, and commits only
/// where the commit itself is what failed: no refused booking leaves a
/// committed booking behind or an announcement of one.
pub proof fn law_refused_booking_neither_commits_nor_announces(
    req: BookRequest,
    steps: Seq<BookingStep>,
    events: Seq<BookingEvent>,
    actions: Seq<BookingAction>,
    e: AppError,
)
    requires
        booking_run(req, steps, events, actions),
        actions.len() > 0,
        actions.last() == BookingAction::Respond(Err(e)),
    ensures
        forall|i: int| 0 <= i < actions.len() ==> !(#[trigger] actions[i] is Publish),
        forall|i: int| 0 <= i < actions.len() && #[trigger] actions[i] is Commit
            ==> i + 1 < events.len() && events[i + 1] is Committed && events[i + 1] matches BookingEvent::Committed(Err(_)),
{
    let n: int = events.len() as int;
    assert forall|i: int| 0 <= i < actions.len() implies !(#[trigger] actions[i] is Publish) by {
        assert(book_moves(req, steps[i], events[i], steps[i + 1], actions[i]));
        if actions[i] is Publish {
            lemma_booking_ranks(req, steps, events, actions, i);
            if i + 1 < n {
                assert(book_moves(req, steps[i + 1], events[i + 1], steps[i + 2], actions[i + 1]));
                if i + 2 < n {
                    assert(book_moves(req, steps[i + 2], events[i + 2], steps[i + 3], actions[i + 2]));
                }
            }
        }
    }
    assert forall|i: int| 0 <= i < actions.len() && #[trigger] actions[i] is Commit
        implies i + 1 < events.len() && events[i + 1] matches BookingEvent::Committed(Err(_)) by {
        assert(book_moves(req, steps[i], events[i], steps[i + 1], actions[i]));
        if i + 1 < n {
            assert(book_moves(req, steps[i + 1], events[i + 1], steps[i + 2], actions[i + 1]));
            if i + 2 < n {
                assert(book_moves(req, steps[i + 2], events[i + 2], steps[i + 3], actions[i + 2]));
                if i + 3 < n {
                    assert(book_moves(req, steps[i + 3], events[i + 3], steps[i + 4], actions[i + 3]));
                }
            }
        }
    }
}

/// A cancellation that is refused never announces anything.
pub proof fn law_refused_cancel_announces_nothing(
    id: u128,
    steps: Seq<CancelStep>,
    events: Seq<CancelEvent>,
    actions: Seq<CancelAction>,
    e: AppError,
)
    requires
        cancel_run(id, steps, events, actions),
        actions.len() > 0,
        actions.last() == CancelAction::Respond(Err(e)),
    ensures
        forall|i: int| 0 <= i < actions.len() ==> !(#[trigger] actions[i] is Publish),
{
    let n: int = events.len() as int;
    assert forall|i: int| 0 <= i < actions.len() implies !(#[trigger] actions[i] is Publish) by {
        assert(cancel_moves(id, steps[i], events[i], steps[i + 1], actions[i]));
        if actions[i] is Publish && i + 1 < n {
            assert(cancel_moves(id, steps[i + 1], events[i + 1], steps[i + 2], actions[i + 1]));
            if i + 2 < n {
                assert(cancel_moves(id, steps[i + 2], events[i + 2], steps[i + 3], actions[i + 2]));
            }
        }
    }
}

/// Whether some appointment on record holds slot `s` as confirmed.
pub open spec fn slot_held(appointments: Map<u128, (u128, Seq<char>)>, s: u128) -> bool {
    exists|i: u128| #[trigger] appointments.contains_key(i) && appointments[i].0 == s && appointments[i].1 == "confirmed"@
}

/// What the store holds of bookings is consistent: the status of each slot
/// by id, and the slot and status of each appointment by id. Appointments
/// are confirmed or cancelled, no two confirmed ones share a slot, and a slot
/// is booked exactly when a confirmed appointment holds it.
pub open spec fn store_consistent(slots: Map<u128, Seq<char>>, appointments: Map<u128, (u128, Seq<char>)>) -> bool {
    &&& forall|i: u128| #[trigger] appointments.contains_key(i)
        ==> appointments[i].1 == "confirmed"@ || appointments[i].1 == "cancelled"@
    &&& forall|i: u128, j: u128|
        #[trigger] appointments.contains_key(i) && #[trigger] appointments.contains_key(j)
            && appointments[i].1 == "confirmed"@ && appointments[j].1 == "confirmed"@
            && appointments[i].0 == appointments[j].0 ==> i == j
    &&& forall|s: u128| #[trigger] slots.contains_key(s) ==> (slots[s] == "booked"@ <==> slot_held(appointments, s))
}

/// The store answered the booking's reads and writes as it holds them: the
/// slot it locked is the one on record, and the appointment it recorded is
/// new, for the requested slot, and confirmed.
pub open spec fn store_answers_booking(
    slots: Map<u128, Seq<char>>,
    appointments: Map<u128, (u128, Seq<char>)>,
    req: BookRequest,
    events: Seq<BookingEvent>,
) -> bool {
    &&& events.len() > 2 ==> match events[2] {
        BookingEvent::SlotLocked(Ok(Some(slot))) => slots.contains_key(req.slot_id) && slot.status@ == slots[req.slot_id],
        BookingEvent::SlotLocked(Ok(None)) => !slots.contains_key(req.slot_id),
        _ => true,
    }
    &&& events.len() > 4 ==> match events[4] {
        BookingEvent::AppointmentCreated(Ok(a)) =>
            !appointments.contains_key(a.id) && a.slot_id == req.slot_id && a.status@ == "confirmed"@,
        _ => true,
    }
}

/// The store answered the cancellation's read of appointment `id` as it
/// holds it.
pub open spec fn store_answers_cancel(
    slots: Map<u128, Seq<char>>,
    appointments: Map<u128, (u128, Seq<char>)>,
    id: u128,
    events: Seq<CancelEvent>,
) -> bool {
    events.len() > 1 ==> match events[1] {
        CancelEvent::AppointmentFound(Ok(Some(a))) => appointments.contains_key(id)
            && a.slot_id == appointments[id].0 && a.status@ == appointments[id].1 && slots.contains_key(a.slot_id),
        CancelEvent::AppointmentFound(Ok(None)) => !appointments.contains_key(id),
        _ => true,
    }
}

proof fn lemma_status_words_differ()
    ensures
        "available"@ != "booked"@,
        "confirmed"@ != "cancelled"@,
        "cancelled"@ != "confirmed"@,
        "available"@ != "confirmed"@,
{
    reveal_strlit("available");
    reveal_strlit("booked");
    reveal_strlit("confirmed");
    reveal_strlit("cancelled");
    assert("available"@.len() != "booked"@.len());
    assert("confirmed"@[1] != "cancelled"@[1]);
}

/// A successful booking keeps the store consistent: it marks the slot booked
/// and records the appointment as confirmed, and no slot is booked twice.
pub proof fn law_booking_keeps_the_store_consistent(
    slots: Map<u128, Seq<char>>,
    appointments: Map<u128, (u128, Seq<char>)>,
    req: BookRequest,
    steps: Seq<BookingStep>,
    events: Seq<BookingEvent>,
    actions: Seq<BookingAction>,
    a: Appointment,
)
    requires
        store_consistent(slots, appointments),
        booking_run(req, steps, events, actions),
        actions.len() > 0,
        actions.last() == BookingAction::Respond(Ok(a)),
        store_answers_booking(slots, appointments, req, events),
    ensures
        slots.contains_key(req.slot_id) && slots[req.slot_id] == "available"@,
        !slot_held(appointments, req.slot_id),
        store_consistent(slots.insert(req.slot_id, "booked"@), appointments.insert(a.id, (a.slot_id, a.status@))),
{
    law_booking_success_runs_the_saga(req, steps, events, actions, a);
    lemma_status_words_differ();
    let s0 = req.slot_id;
    let slots2 = slots.insert(s0, "booked"@);
    let appts2 = appointments.insert(a.id, (a.slot_id, a.status@));
    assert(slots.contains_key(s0) && slots[s0] == "available"@);
    assert(!slot_held(appointments, s0));
    assert forall|i: u128| #[trigger] appts2.contains_key(i)
        implies appts2[i].1 == "confirmed"@ || appts2[i].1 == "cancelled"@ by {
        if i != a.id {
            assert(appointments.contains_key(i));
        }
    }
    assert forall|i: u128, j: u128|
        #[trigger] appts2.contains_key(i) && #[trigger] appts2.contains_key(j)
            && appts2[i].1 == "confirmed"@ && appts2[j].1 == "confirmed"@
            && appts2[i].0 == appts2[j].0 implies i == j by {
        if i != a.id && j != a.id {
            assert(appointments.contains_key(i) && appointments.contains_key(j));
        } else if i == a.id && j != a.id {
            assert(appointments.contains_key(j) && appointments[j].0 == s0 && appointments[j].1 == "confirmed"@);
        } else if j == a.id && i != a.id {
            assert(appointments.contains_key(i) && appointments[i].0 == s0 && appointments[i].1 == "confirmed"@);
        }
    }
    assert forall|s: u128| #[trigger] slots2.contains_key(s) implies (slots2[s] == "booked"@ <==> slot_held(appts2, s)) by {
        if s == s0 {
            assert(appts2.contains_key(a.id) && appts2[a.id].0 == s0 && appts2[a.id].1 == "confirmed"@);
        } else {
            assert(slots.contains_key(s));
            if slot_held(appts2, s) {
                let i = choose|i: u128| #[trigger] appts2.contains_key(i) && appts2[i].0 == s && appts2[i].1 == "confirmed"@;
                assert(i != a.id);
                assert(appointments.contains_key(i));
            }
            if slot_held(appointments, s) {
                let i = choose|i: u128| #[trigger] appointments.contains_key(i) && appointments[i].0 == s && appointments[i].1 == "confirmed"@;
                assert(appts2.contains_key(i) && appts2[i] == appointments[i]);
            }
        }
    }
}

/// A successful cancellation keeps the store consistent: the appointment,
/// which was confirmed, is cancelled and its slot is available again.
pub proof fn law_cancel_keeps_the_store_consistent(
    slots: Map<u128, Seq<char>>,
    appointments: Map<u128, (u128, Seq<char>)>,
    id: u128,
    steps: Seq<CancelStep>,
    events: Seq<CancelEvent>,
    actions: Seq<CancelAction>,
)
    requires
        store_consistent(slots, appointments),
        cancel_run(id, steps, events, actions),
        actions.len() > 0,
        actions.last() == CancelAction::Respond(Ok(())),
        store_answers_cancel(slots, appointments, id, events),
    ensures
        appointments.contains_key(id) && appointments[id].1 == "confirmed"@,
        slots.contains_key(appointments[id].0),
        store_consistent(
            slots.insert(appointments[id].0, "available"@),
            appointments.insert(id, (appointments[id].0, "cancelled"@)),
        ),
{
    law_cancel_success_frees_the_slot(id, steps, events, actions);
    lemma_status_words_differ();
    reveal_strlit("cancelled");
    assert(appointments.contains_key(id));
    let s0 = appointments[id].0;
    let slots2 = slots.insert(s0, "available"@);
    let appts2 = appointments.insert(id, (s0, "cancelled"@));
    assert(appointments[id].1 == "confirmed"@);
    assert forall|i: u128| #[trigger] appts2.contains_key(i)
        implies appts2[i].1 == "confirmed"@ || appts2[i].1 == "cancelled"@ by {
        if i != id {
            assert(appointments.contains_key(i));
        }
    }
    assert forall|i: u128, j: u128|
        #[trigger] appts2.contains_key(i) && #[trigger] appts2.contains_key(j)
            && appts2[i].1 == "confirmed"@ && appts2[j].1 == "confirmed"@
            && appts2[i].0 == appts2[j].0 implies i == j by {
        assert(i != id && j != id);
        assert(appointments.contains_key(i) && appointments.contains_key(j));
    }
    assert forall|s: u128| #[trigger] slots2.contains_key(s) implies (slots2[s] == "booked"@ <==> slot_held(appts2, s)) by {
        if s == s0 {
            if slot_held(appts2, s) {
                let i = choose|i: u128| #[trigger] appts2.contains_key(i) && appts2[i].0 == s && appts2[i].1 == "confirmed"@;
                assert(i != id);
                assert(appointments.contains_key(i) && appointments.contains_key(id));
            }
        } else {
            assert(slots.contains_key(s));
            if slot_held(appts2, s) {
                let i = choose|i: u128| #[trigger] appts2.contains_key(i) && appts2[i].0 == s && appts2[i].1 == "confirmed"@;
                assert(appointments.contains_key(i));
            }
            if slot_held(appointments, s) {
                let i = choose|i: u128| #[trigger] appointments.contains_key(i) && appointments[i].0 == s && appointments[i].1 == "confirmed"@;
                assert(i != id);
                assert(appts2.contains_key(i) && appts2[i] == appointments[i]);
            }
        }
    }
}

/// Booking then cancelling is a round trip: after a booking of an available
/// slot and the cancellation of that appointment, both answered by the store
/// as it holds them, the slot is available again and the store consistent;
/// a second cancellation of the appointment is refused as already
/// cancelled, and a new booking of the slot gets past the availability check.
pub proof fn law_cancel_after_booking_round_trip(
    slots: Map<u128, Seq<char>>,
    appointments: Map<u128, (u128, Seq<char>)>,
    req: BookRequest,
    b_steps: Seq<BookingStep>,
    b_events: Seq<BookingEvent>,
    b_actions: Seq<BookingAction>,
    a: Appointment,
    c_steps: Seq<CancelStep>,
    c_events: Seq<CancelEvent>,
    c_actions: Seq<CancelAction>,
    again_steps: Seq<CancelStep>,
    again_events: Seq<CancelEvent>,
    again_actions: Seq<CancelAction>,
    rebook: BookRequest,
    r_steps: Seq<BookingStep>,
    r_events: Seq<BookingEvent>,
    r_actions: Seq<BookingAction>,
)
    requires
        store_consistent(slots, appointments),
        booking_run(req, b_steps, b_events, b_actions),
        b_actions.len() > 0,
        b_actions.last() == BookingAction::Respond(Ok(a)),
        store_answers_booking(slots, appointments, req, b_events),
        cancel_run(a.id, c_steps, c_events, c_actions),
        c_actions.len() > 0,
        c_actions.last() == CancelAction::Respond(Ok(())),
        store_answers_cancel(
            slots.insert(req.slot_id, "booked"@),
            appointments.insert(a.id, (a.slot_id, a.status@)),
            a.id,
            c_events,
        ),
        cancel_run(a.id, again_steps, again_events, again_actions),
        again_events.len() > 1,
        again_events[1] is AppointmentFound,
        !(again_events[1] matches CancelEvent::AppointmentFound(Err(_))),
        store_answers_cancel(
            slots.insert(req.slot_id, "available"@),
            appointments.insert(a.id, (req.slot_id, "cancelled"@)),
            a.id,
            again_events,
        ),
        rebook.slot_id == req.slot_id,
        booking_run(rebook, r_steps, r_events, r_actions),
        r_events.len() > 2,
        r_events[2] is SlotLocked,
        !(r_events[2] matches BookingEvent::SlotLocked(Err(_))),
        store_answers_booking(
            slots.insert(req.slot_id, "available"@),
            appointments.insert(a.id, (req.slot_id, "cancelled"@)),
            rebook,
            r_events,
        ),
    ensures
        store_consistent(
            slots.insert(req.slot_id, "available"@),
            appointments.insert(a.id, (req.slot_id, "cancelled"@)),
        ),
        again_events.len() == 2,
        again_actions[1] matches CancelAction::Respond(Err(AppError::Conflict(m))) && m@ == "Appointment already cancelled"@,
        r_actions[2] matches BookingAction::SetSlotStatus { slot_id, status } && slot_id == req.slot_id && status@ == "booked"@,
{
    law_booking_keeps_the_store_consistent(slots, appointments, req, b_steps, b_events, b_actions, a);
    law_booking_success_runs_the_saga(req, b_steps, b_events, b_actions, a);
    let slots1 = slots.insert(req.slot_id, "booked"@);
    let appts1 = appointments.insert(a.id, (a.slot_id, a.status@));
    law_cancel_keeps_the_store_consistent(slots1, appts1, a.id, c_steps, c_events, c_actions);
    assert(appts1[a.id] == (req.slot_id, a.status@));
    let slots2 = slots.insert(req.slot_id, "available"@);
    let appts2 = appointments.insert(a.id, (req.slot_id, "cancelled"@));
    assert(slots1.insert(req.slot_id, "available"@) =~= slots2);
    assert(appts1.insert(a.id, (req.slot_id, "cancelled"@)) =~= appts2);
    assert(appts2.contains_key(a.id));
    let found = again_events[1]->AppointmentFound_0->Ok_0->Some_0;
    assert(again_events[1] == CancelEvent::AppointmentFound(Ok(Some(found))));
    law_second_cancel_is_refused(a.id, again_steps, again_events, again_actions, found);
    lemma_booking_ranks(rebook, r_steps, r_events, r_actions, 2);
    assert(book_moves(rebook, r_steps[2], r_events[2], r_steps[3], r_actions[2]));
}

/// A run of the combined view.
pub open spec fn compose_run(plan: ComposedPlan, steps: Seq<ComposeStep>, events: Seq<ComposeEvent>, actions: Seq<ComposeAction>) -> bool {
    &&& steps.len() == events.len() + 1
    &&& actions.len() == events.len()
    &&& steps[0] is Start
    &&& forall|i: int| #![trigger events[i]] 0 <= i < events.len() ==> compose_moves(plan, steps[i], events[i], steps[i + 1], actions[i])
}

/// How far the combined view has come.
pub open spec fn compose_rank(s: ComposeStep) -> int {
    match s {
        ComposeStep::Start => 0,
        ComposeStep::FetchingAppointments => 1,
        ComposeStep::FetchingNotifications { .. } => 2,
        ComposeStep::Done => 3,
    }
}

proof fn lemma_compose_ranks(plan: ComposedPlan, steps: Seq<ComposeStep>, events: Seq<ComposeEvent>, actions: Seq<ComposeAction>, k: int)
    requires
        compose_run(plan, steps, events, actions),
        0 <= k < events.len(),
    ensures
        compose_rank(steps[k]) == k,
    decreases k,
{
    if k > 0 {
        lemma_compose_ranks(plan, steps, events, actions, k - 1);
        assert(compose_moves(plan, steps[k - 1], events[k - 1], steps[k], actions[k - 1]));
        assert(compose_moves(plan, steps[k], events[k], steps[k + 1], actions[k]));
    }
}

/// The combined view asks for the caller's appointments first, and for the
/// notifications only as its second request, once the appointments answer
/// has come back and been read as JSON; it makes no other request.
pub proof fn law_composed_view_asks_in_order(
    plan: ComposedPlan,
    steps: Seq<ComposeStep>,
    events: Seq<ComposeEvent>,
    actions: Seq<ComposeAction>,
)
    requires
        compose_run(plan, steps, events, actions),
    ensures
        actions.len() > 0 ==> (actions[0] matches ComposeAction::Get { url } && url@ == plan.appointments_url@),
        forall|i: int| 0 <= i < actions.len() && #[trigger] actions[i] is Get ==> i <= 1,
        actions.len() > 1 && actions[1] is Get ==> {
            &&& actions[1] matches ComposeAction::Get { url } && url@ == plan.notifications_url@
            &&& events[1] matches ComposeEvent::Fetched(Ok(body)) && json_value_at(body@, "/data"@) is Ok
        },
{
    if actions.len() > 0 {
        assert(compose_moves(plan, steps[0], events[0], steps[1], actions[0]));
    }
    assert forall|i: int| 0 <= i < actions.len() && #[trigger] actions[i] is Get implies i <= 1 by {
        lemma_compose_ranks(plan, steps, events, actions, i);
        assert(compose_moves(plan, steps[i], events[i], steps[i + 1], actions[i]));
    }
    if actions.len() > 1 {
        lemma_compose_ranks(plan, steps, events, actions, 1);
        assert(compose_moves(plan, steps[1], events[1], steps[2], actions[1]));
    }
}

/// The writes a booking run made inside its transaction, in order: the slot
/// statuses it set and the appointments the store recorded for it.
pub open spec fn booking_writes(
    slots: Map<u128, Seq<char>>,
    appointments: Map<u128, (u128, Seq<char>)>,
    actions: Seq<BookingAction>,
    events: Seq<BookingEvent>,
    n: int,
) -> (Map<u128, Seq<char>>, Map<u128, (u128, Seq<char>)>)
    decreases n,
{
    if n <= 0 {
        (slots, appointments)
    } else {
        let (s, a) = booking_writes(slots, appointments, actions, events, n - 1);
        let s2 = match actions[n - 1] {
            BookingAction::SetSlotStatus { slot_id, status } => s.insert(slot_id, status@),
            _ => s,
        };
        let a2 = match events[n - 1] {
            BookingEvent::AppointmentCreated(Ok(x)) => a.insert(x.id, (x.slot_id, x.status@)),
            _ => a,
        };
        (s2, a2)
    }
}

/// The run's transaction was committed.
pub open spec fn booking_committed(events: Seq<BookingEvent>) -> bool {
    exists|i: int| 0 <= i < events.len() && (#[trigger] events[i] matches BookingEvent::Committed(Ok(_)))
}

/// The store after a booking run: its writes where the transaction was
/// committed; where it was not, they are rolled back and the store is as it
/// was.
pub open spec fn store_after_booking(
    slots: Map<u128, Seq<char>>,
    appointments: Map<u128, (u128, Seq<char>)>,
    actions: Seq<BookingAction>,
    events: Seq<BookingEvent>,
) -> (Map<u128, Seq<char>>, Map<u128, (u128, Seq<char>)>) {
    if booking_committed(events) {
        booking_writes(slots, appointments, actions, events, events.len() as int)
    } else {
        (slots, appointments)
    }
}

/// A booking takes effect all or nothing: a refused or failed booking leaves
/// the store as it was, and a successful one has marked its slot booked and
/// recorded its appointment, and nothing else.
pub proof fn law_booking_is_all_or_nothing(
    slots: Map<u128, Seq<char>>,
    appointments: Map<u128, (u128, Seq<char>)>,
    req: BookRequest,
    steps: Seq<BookingStep>,
    events: Seq<BookingEvent>,
    actions: Seq<BookingAction>,
)
    requires
        booking_run(req, steps, events, actions),
        actions.len() > 0,
        actions.last() is Respond,
    ensures
        actions.last() matches BookingAction::Respond(Err(_))
            ==> store_after_booking(slots, appointments, actions, events) == (slots, appointments),
        actions.last() matches BookingAction::Respond(Ok(a))
            ==> store_after_booking(slots, appointments, actions, events)
                == (slots.insert(req.slot_id, "booked"@), appointments.insert(a.id, (a.slot_id, a.status@))),
{
    let n: int = events.len() as int;
    match actions.last() {
        BookingAction::Respond(Err(e)) => {
            law_refused_booking_neither_commits_nor_announces(req, steps, events, actions, e);
            if booking_committed(events) {
                let i = choose|i: int| 0 <= i < events.len() && (#[trigger] events[i] matches BookingEvent::Committed(Ok(_)));
                assert(book_moves(req, steps[i], events[i], steps[i + 1], actions[i]));
                assert(actions[i] is Publish);
            }
        },
        BookingAction::Respond(Ok(a)) => {
            law_booking_success_runs_the_saga(req, steps, events, actions, a);
            lemma_booking_ranks(req, steps, events, actions, 0);
            lemma_booking_ranks(req, steps, events, actions, 1);
            lemma_booking_ranks(req, steps, events, actions, 2);
            lemma_booking_ranks(req, steps, events, actions, 3);
            lemma_booking_ranks(req, steps, events, actions, 4);
            lemma_booking_ranks(req, steps, events, actions, 5);
            lemma_booking_ranks(req, steps, events, actions, 6);
            assert(book_moves(req, steps[5], events[5], steps[6], actions[5]));
            assert(booking_rank(steps[5]) == 5);
            assert(steps[5] is Committing);
            assert(actions[5] is Publish);
            assert(events[5] is Committed);
            assert(events[5] matches BookingEvent::Committed(Ok(_)));
            assert(booking_committed(events));
            let w0 = booking_writes(slots, appointments, actions, events, 0);
            let w1 = booking_writes(slots, appointments, actions, events, 1);
            let w2 = booking_writes(slots, appointments, actions, events, 2);
            let w3 = booking_writes(slots, appointments, actions, events, 3);
            let w4 = booking_writes(slots, appointments, actions, events, 4);
            let w5 = booking_writes(slots, appointments, actions, events, 5);
            let w6 = booking_writes(slots, appointments, actions, events, 6);
            let w7 = booking_writes(slots, appointments, actions, events, 7);
            assert(booking_rank(steps[0]) == 0 && booking_rank(steps[1]) == 1 && booking_rank(steps[2]) == 2);
            assert(booking_rank(steps[3]) == 3 && booking_rank(steps[4]) == 4 && booking_rank(steps[6]) == 6);
            assert(book_moves(req, steps[0], events[0], steps[1], actions[0]));
            assert(book_moves(req, steps[1], events[1], steps[2], actions[1]));
            assert(book_moves(req, steps[2], events[2], steps[3], actions[2]));
            assert(book_moves(req, steps[3], events[3], steps[4], actions[3]));
            assert(book_moves(req, steps[4], events[4], steps[5], actions[4]));
            assert(book_moves(req, steps[6], events[6], steps[7], actions[6]));
            assert(w0 == (slots, appointments));
            assert(w1 == w0);
            assert(w2 == w1);
            assert(w3.0 == slots.insert(req.slot_id, "booked"@) && w3.1 == appointments);
            assert(w4 == w3);
            assert(w5.0 == w4.0 && w5.1 == appointments.insert(a.id, (a.slot_id, a.status@)));
            assert(w6 == w5);
            assert(w7 == w6);
        },
        _ => {},
    }
}

/// The store's own answers that report a failure.
pub open spec fn is_store_failure(e: BookingEvent) -> bool {
    match e {
        BookingEvent::TransactionBegun(Err(_)) => true,
        BookingEvent::SlotLocked(Err(_)) => true,
        BookingEvent::StatusSet(Err(_)) => true,
        BookingEvent::AppointmentCreated(Err(_)) => true,
        BookingEvent::Committed(Err(_)) => true,
        _ => false,
    }
}

/// A booking run in which the store reported no failure.
pub open spec fn no_store_failure(events: Seq<BookingEvent>) -> bool {
    forall|i: int| 0 <= i < events.len() ==> !is_store_failure(#[trigger] events[i])
}

proof fn lemma_refusal_reasons(req: BookRequest, steps: Seq<BookingStep>, events: Seq<BookingEvent>, actions: Seq<BookingAction>, k: int)
    requires
        booking_run(req, steps, events, actions),
        0 <= k < events.len(),
        actions[k] matches BookingAction::Respond(Err(_)),
    ensures
        is_store_failure(events[k]) || (events[k] matches BookingEvent::SlotLocked(Ok(found)) && k == 2 && match found {
            None => true,
            Some(slot) => slot.status@ != "available"@,
        }),
{
    assert(book_moves(req, steps[k], events[k], steps[k + 1], actions[k]));
    lemma_booking_ranks(req, steps, events, actions, k);
}

/// A booking run that the store answers without failure goes past reading
/// the slot: it asks for the lock, and the lock is answered.
proof fn lemma_reaches_the_lock(req: BookRequest, steps: Seq<BookingStep>, events: Seq<BookingEvent>, actions: Seq<BookingAction>)
    requires
        booking_run(req, steps, events, actions),
        actions.len() > 0,
        actions.last() is Respond,
        no_store_failure(events),
    ensures
        events.len() > 2,
        events[2] is SlotLocked,
        !is_store_failure(events[2]),
{
    let n: int = events.len() as int;
    assert(book_moves(req, steps[0], events[0], steps[1], actions[0]));
    if n > 1 {
        lemma_booking_ranks(req, steps, events, actions, 1);
        assert(!is_store_failure(events[1]));
        assert(book_moves(req, steps[1], events[1], steps[2], actions[1]));
    }
    if n > 2 {
        lemma_booking_ranks(req, steps, events, actions, 2);
        assert(book_moves(req, steps[2], events[2], steps[3], actions[2]));
        assert(!is_store_failure(events[2]));
    }
}

/// Whatever a booking answers, the store stays consistent: a refused or
/// failed booking is rolled back, and a successful one books a free slot.
pub proof fn law_booking_keeps_the_store_consistent_whatever_the_result(
    slots: Map<u128, Seq<char>>,
    appointments: Map<u128, (u128, Seq<char>)>,
    req: BookRequest,
    steps: Seq<BookingStep>,
    events: Seq<BookingEvent>,
    actions: Seq<BookingAction>,
)
    requires
        store_consistent(slots, appointments),
        booking_run(req, steps, events, actions),
        actions.len() > 0,
        actions.last() is Respond,
        store_answers_booking(slots, appointments, req, events),
    ensures
        store_consistent(
            store_after_booking(slots, appointments, actions, events).0,
            store_after_booking(slots, appointments, actions, events).1,
        ),
{
    law_booking_is_all_or_nothing(slots, appointments, req, steps, events, actions);
    if let BookingAction::Respond(Ok(a)) = actions.last() {
        law_booking_keeps_the_store_consistent(slots, appointments, req, steps, events, actions, a);
    }
}

/// Of two bookings of one available slot, which the slot's lock lets through
/// one after the other and which the store answers without failure, exactly
/// one succeeds: the first books the slot, the second is refused as no
/// longer available and changes nothing, and one confirmed appointment holds
/// the slot.
pub proof fn law_one_of_two_bookings_of_a_slot_wins(
    slots: Map<u128, Seq<char>>,
    appointments: Map<u128, (u128, Seq<char>)>,
    first: BookRequest,
    steps1: Seq<BookingStep>,
    events1: Seq<BookingEvent>,
    actions1: Seq<BookingAction>,
    second: BookRequest,
    steps2: Seq<BookingStep>,
    events2: Seq<BookingEvent>,
    actions2: Seq<BookingAction>,
)
    requires
        store_consistent(slots, appointments),
        slots.contains_key(first.slot_id),
        slots[first.slot_id] == "available"@,
        second.slot_id == first.slot_id,
        booking_run(first, steps1, events1, actions1),
        actions1.len() > 0,
        actions1.last() is Respond,
        no_store_failure(events1),
        store_answers_booking(slots, appointments, first, events1),
        booking_run(second, steps2, events2, actions2),
        actions2.len() > 0,
        actions2.last() is Respond,
        no_store_failure(events2),
        store_answers_booking(
            store_after_booking(slots, appointments, actions1, events1).0,
            store_after_booking(slots, appointments, actions1, events1).1,
            second,
            events2,
        ),
    ensures
        actions1.last() matches BookingAction::Respond(Ok(a)) && {
            let after = store_after_booking(slots, appointments, actions1, events1);
            &&& after.0 == slots.insert(first.slot_id, "booked"@)
            &&& after.1 == appointments.insert(a.id, (first.slot_id, "confirmed"@))
            &&& store_consistent(after.0, after.1)
            &&& forall|i: u128| #[trigger] after.1.contains_key(i) && after.1[i].0 == first.slot_id
                && after.1[i].1 == "confirmed"@ ==> i == a.id
        },
        actions2.last() matches BookingAction::Respond(Err(AppError::Conflict(m))) && m@ == "Time slot is no longer available"@,
        store_after_booking(
            store_after_booking(slots, appointments, actions1, events1).0,
            store_after_booking(slots, appointments, actions1, events1).1,
            actions2,
            events2,
        ) == store_after_booking(slots, appointments, actions1, events1),
{
    lemma_status_words_differ();
    let s0 = first.slot_id;
    let n1: int = events1.len() as int;
    lemma_reaches_the_lock(first, steps1, events1, actions1);
    if actions1.last() matches BookingAction::Respond(Err(_)) {
        lemma_refusal_reasons(first, steps1, events1, actions1, n1 - 1);
        assert(!is_store_failure(events1[n1 - 1]));
    }
    let a = actions1.last()->Respond_0->Ok_0;
    assert(actions1.last() == BookingAction::Respond(Ok(a)));
    law_booking_is_all_or_nothing(slots, appointments, first, steps1, events1, actions1);
    law_booking_keeps_the_store_consistent(slots, appointments, first, steps1, events1, actions1, a);
    law_booking_success_runs_the_saga(first, steps1, events1, actions1, a);
    let after = store_after_booking(slots, appointments, actions1, events1);
    assert(after.0 == slots.insert(s0, "booked"@));
    assert(after.1 == appointments.insert(a.id, (s0, "confirmed"@)));
    assert(after.1.contains_key(a.id));
    lemma_reaches_the_lock(second, steps2, events2, actions2);
    let found = events2[2]->SlotLocked_0->Ok_0->Some_0;
    assert(events2[2] == BookingEvent::SlotLocked(Ok(Some(found))));
    assert(found.status@ == "booked"@);
    law_unavailable_slot_is_refused(second, steps2, events2, actions2, found);
    law_booking_is_all_or_nothing(after.0, after.1, second, steps2, events2, actions2);
}

/// The hash a registration stores is a PHC string of Argon2id that verifies
/// the password it was made from; it is not the password itself, unless the
/// password is itself written as such a string.
pub proof fn law_registration_stores_a_hash_not_the_password(
    config: JwtConfig,
    payload: RegisterRequest,
    role: UserRole,
    created: AuthStep,
    email: String,
    password_hash: String,
    stored_role: String,
)
    requires
        register_moves(
            config,
            payload,
            AuthStep::CheckingEmail { role },
            AuthEvent::EmailChecked(Ok(false)),
            created,
            AuthAction::CreateUser { email, password_hash, stored_role },
        ),
    ensures
        password_check(payload.password@, password_hash@) == Ok::<bool, Seq<char>>(true),
        seq_starts_with(password_hash@, "$argon2id$"@),
        !seq_starts_with(payload.password@, "$argon2id$"@) ==> password_hash@ != payload.password@,
{
}

/// Whether a stored hash can be read does not depend on the password
/// offered: two passwords checked against one hash are both refused as an
/// unreadable hash, with the same message, or neither is.
pub proof fn law_unreadable_hash_refuses_every_password(password: Seq<char>, other: Seq<char>, hash: Seq<char>)
    ensures
        password_check(password, hash) is Err <==> password_check(other, hash) is Err,
        password_check(password, hash) matches Err(m) ==> password_check(other, hash) == Err::<bool, Seq<char>>(m),
{
}

/// A stored notification is shown as it was stored: the message, the
/// recipient, the appointment, the type, the QR code and the time are the
/// stored ones, and no field is shown in place of another.
pub proof fn law_notification_is_shown_as_stored(n: Notification, r: NotificationResponse)
    requires
        shown_as(n, r),
    ensures
        r.message == n.message,
        r.user_id == n.user_id,
        r.appointment_id == n.appointment_id,
        r.notification_type == n.notification_type,
        r.qr_code == n.qr_code,
        r.created_at == n.created_at,
        n.id is None ==> r.id@.len() == 0,
{
}

/// The last three moves of a run that answered `r`: the access token was
/// asked for with `expiry_hours` and its answer is `r.access_token`; then the
/// refresh token was asked for with `refresh_expiry_hours` and its answer is
/// `r.refresh_token`; both for the account `r` names.
pub open spec fn answered_with_issued_tokens(
    config: JwtConfig,
    events: Seq<AuthEvent>,
    actions: Seq<AuthAction>,
    r: AuthResponse,
) -> bool {
    let n = events.len() as int;
    &&& n >= 3
    &&& actions[n - 3] matches AuthAction::IssueToken { user_id, email, expiry_hours, .. }
        && user_id == r.user_id && email == r.email && expiry_hours == config.expiry_hours
    &&& events[n - 2] == AuthEvent::TokenIssued(Ok(r.access_token))
    &&& actions[n - 2] matches AuthAction::IssueToken { user_id, email, expiry_hours, .. }
        && user_id == r.user_id && email == r.email && expiry_hours == config.refresh_expiry_hours
    &&& events[n - 1] == AuthEvent::TokenIssued(Ok(r.refresh_token))
    &&& r.token_type@ == "Bearer"@
}

/// A run of the login protocol.
pub open spec fn login_run(
    config: JwtConfig,
    email: Seq<char>,
    password: Seq<char>,
    steps: Seq<AuthStep>,
    events: Seq<AuthEvent>,
    actions: Seq<AuthAction>,
) -> bool {
    &&& steps.len() == events.len() + 1
    &&& actions.len() == events.len()
    &&& steps[0] is Start
    &&& forall|i: int| #![trigger events[i]] 0 <= i < events.len()
        ==> login_moves(config, email, password, steps[i], events[i], steps[i + 1], actions[i])
}

/// A run of the refresh protocol.
pub open spec fn refresh_run(
    config: JwtConfig,
    token: Seq<char>,
    steps: Seq<AuthStep>,
    events: Seq<AuthEvent>,
    actions: Seq<AuthAction>,
) -> bool {
    &&& steps.len() == events.len() + 1
    &&& actions.len() == events.len()
    &&& steps[0] is Start
    &&& forall|i: int| #![trigger events[i]] 0 <= i < events.len()
        ==> refresh_moves(config, token, steps[i], events[i], steps[i + 1], actions[i])
}

/// A run of the registration protocol.
pub open spec fn register_run(
    config: JwtConfig,
    payload: RegisterRequest,
    steps: Seq<AuthStep>,
    events: Seq<AuthEvent>,
    actions: Seq<AuthAction>,
) -> bool {
    &&& steps.len() == events.len() + 1
    &&& actions.len() == events.len()
    &&& steps[0] is Start
    &&& forall|i: int| #![trigger events[i]] 0 <= i < events.len()
        ==> register_moves(config, payload, steps[i], events[i], steps[i + 1], actions[i])
}

/// A successful login answers with the tokens the issuer gave: the one asked
/// for with the access lifetime as the access token, the one asked for next,
/// with the refresh lifetime, as the refresh token.
pub proof fn law_login_answers_the_issued_tokens(
    config: JwtConfig,
    email: Seq<char>,
    password: Seq<char>,
    steps: Seq<AuthStep>,
    events: Seq<AuthEvent>,
    actions: Seq<AuthAction>,
    r: AuthResponse,
)
    requires
        login_run(config, email, password, steps, events, actions),
        actions.len() > 0,
        actions.last() == AuthAction::Respond(Ok(r)),
    ensures
        answered_with_issued_tokens(config, events, actions, r),
        actions[events.len() - 3] matches AuthAction::IssueToken { role, .. } && role_named(r.role@) == Some(role),
{
    let n = events.len() as int;
    assert(login_moves(config, email, password, steps[n - 1], events[n - 1], steps[n], actions[n - 1]));
    assert(steps[n - 1] is IssuingRefresh);
    assert(n - 1 > 0);
    assert(login_moves(config, email, password, steps[n - 2], events[n - 2], steps[n - 1], actions[n - 2]));
    assert(steps[n - 2] is IssuingAccess);
    assert(n - 2 > 0);
    assert(login_moves(config, email, password, steps[n - 3], events[n - 3], steps[n - 2], actions[n - 3]));
    reveal_strlit("Bearer");
}

/// A successful refresh answers with the tokens it just had issued: the new
/// access token and the new refresh token, never the one presented.
pub proof fn law_refresh_answers_the_issued_tokens(
    config: JwtConfig,
    token: Seq<char>,
    steps: Seq<AuthStep>,
    events: Seq<AuthEvent>,
    actions: Seq<AuthAction>,
    r: AuthResponse,
)
    requires
        refresh_run(config, token, steps, events, actions),
        actions.len() > 0,
        actions.last() == AuthAction::Respond(Ok(r)),
    ensures
        answered_with_issued_tokens(config, events, actions, r),
        actions[events.len() - 3] matches AuthAction::IssueToken { role, .. } && role_named(r.role@) == Some(role),
{
    let n = events.len() as int;
    assert(refresh_moves(config, token, steps[n - 1], events[n - 1], steps[n], actions[n - 1]));
    assert(steps[n - 1] is IssuingRefresh);
    assert(n - 1 > 0);
    assert(refresh_moves(config, token, steps[n - 2], events[n - 2], steps[n - 1], actions[n - 2]));
    assert(steps[n - 2] is IssuingAccess);
    assert(n - 2 > 0);
    assert(refresh_moves(config, token, steps[n - 3], events[n - 3], steps[n - 2], actions[n - 3]));
}

/// A successful registration answers with the tokens the issuer gave, in
/// the same way.
pub proof fn law_registration_answers_the_issued_tokens(
    config: JwtConfig,
    payload: RegisterRequest,
    steps: Seq<AuthStep>,
    events: Seq<AuthEvent>,
    actions: Seq<AuthAction>,
    r: AuthResponse,
)
    requires
        register_run(config, payload, steps, events, actions),
        actions.len() > 0,
        actions.last() == AuthAction::Respond(Ok(r)),
    ensures
        answered_with_issued_tokens(config, events, actions, r),
{
    let n = events.len() as int;
    assert(register_moves(config, payload, steps[n - 1], events[n - 1], steps[n], actions[n - 1]));
    assert(steps[n - 1] is IssuingRefresh);
    assert(n - 1 > 0);
    assert(register_moves(config, payload, steps[n - 2], events[n - 2], steps[n - 1], actions[n - 2]));
    assert(steps[n - 2] is IssuingAccess);
    assert(n - 2 > 0);
    assert(register_moves(config, payload, steps[n - 3], events[n - 3], steps[n - 2], actions[n - 3]));
}

/// Every well-formed registration goes on to ask whether its email is
/// taken: a non-empty email, a password of at least 6 bytes, of any greater
/// length, and a known role are never refused at the start.
pub proof fn law_well_formed_registration_goes_on(
    config: JwtConfig,
    payload: RegisterRequest,
    role: UserRole,
    next: AuthStep,
    action: AuthAction,
)
    requires
        payload.email@.len() > 0,
        encode_utf8(payload.password@).len() >= 6,
        role_named(payload.role@) == Some(role),
        register_moves(config, payload, AuthStep::Start, AuthEvent::Begin, next, action),
    ensures
        next == (AuthStep::CheckingEmail { role }),
        action == (AuthAction::CheckEmailExists { email: payload.email }),
{
    if payload.password@.len() == 0 {
        assert(encode_utf8(payload.password@) =~= Seq::<u8>::empty());
    }
}

proof fn lemma_concat_contains<A>(a: Seq<A>, b: Seq<A>, x: A)
    ensures
        (a + b).contains(x) <==> a.contains(x) || b.contains(x),
{
    if (a + b).contains(x) {
        let i = choose|i: int| 0 <= i < (a + b).len() && (a + b)[i] == x;
        if i < a.len() {
            assert(a[i] == x);
        } else {
            assert(b[i - a.len()] == x);
        }
    }
    if a.contains(x) {
        let i = choose|i: int| 0 <= i < a.len() && a[i] == x;
        assert((a + b)[i] == x);
    }
    if b.contains(x) {
        let i = choose|i: int| 0 <= i < b.len() && b[i] == x;
        assert((a + b)[i + a.len()] == x);
    }
}

/// The names of the headers a forwarded request carries.
pub open spec fn is_forwarded_name(name: Seq<char>) -> bool {
    ||| name == "content-type"@
    ||| name == "authorization"@
    ||| name == "x-user-id"@
    ||| name == "x-user-role"@
}

/// Each of the four forwarded headers travels exactly when the request has
/// it, with the value of the request's first header of that name, whatever
/// the other headers are: the plan holds `(name, v)` if and only if the
/// request's `name` header is `v`.
pub proof fn law_each_forwarded_header_travels_on_its_own(hs: Seq<Header>, name: Seq<char>, v: Seq<u8>)
    requires
        is_forwarded_name(name),
    ensures
        forwarded_headers(hs).contains((name, v)) <==> header_value(hs, name) == Some(v),
{
    reveal_strlit("content-type");
    reveal_strlit("authorization");
    reveal_strlit("x-user-id");
    reveal_strlit("x-user-role");
    let ct = crate::gateway::entry("content-type"@, header_value(hs, "content-type"@));
    let au = crate::gateway::entry("authorization"@, header_value(hs, "authorization"@));
    let id = crate::gateway::entry("x-user-id"@, header_value(hs, "x-user-id"@));
    let ro = crate::gateway::entry("x-user-role"@, header_value(hs, "x-user-role"@));
    assert(forwarded_headers(hs) == ct + au + id + ro);
    lemma_concat_contains(ct + au + id, ro, (name, v));
    lemma_concat_contains(ct + au, id, (name, v));
    lemma_concat_contains(ct, au, (name, v));
    assert forall|lit: Seq<char>| #![trigger crate::gateway::entry(lit, header_value(hs, lit))]
        is_forwarded_name(lit) implies
        (crate::gateway::entry(lit, header_value(hs, lit)).contains((name, v))
            <==> (lit == name && header_value(hs, name) == Some(v))) by {
        let e = crate::gateway::entry(lit, header_value(hs, lit));
        if e.contains((name, v)) {
            let i = choose|i: int| 0 <= i < e.len() && e[i] == (name, v);
            assert(header_value(hs, lit) is Some);
        }
        if lit == name && header_value(hs, name) == Some(v) {
            assert(e[0] == (name, v));
        }
    }
    assert("content-type"@.len() == 12 && "authorization"@.len() == 13);
    assert("x-user-id"@.len() == 9 && "x-user-role"@.len() == 11);
    assert(is_forwarded_name("content-type"@) && is_forwarded_name("authorization"@));
    assert(is_forwarded_name("x-user-id"@) && is_forwarded_name("x-user-role"@));
    assert(ct.contains((name, v)) <==> ("content-type"@ == name && header_value(hs, name) == Some(v)));
    assert(au.contains((name, v)) <==> ("authorization"@ == name && header_value(hs, name) == Some(v)));
    assert(id.contains((name, v)) <==> ("x-user-id"@ == name && header_value(hs, name) == Some(v)));
    assert(ro.contains((name, v)) <==> ("x-user-role"@ == name && header_value(hs, name) == Some(v)));
}

/// A login whose password checks against the stored hash, for an account
/// with a known role, is not refused: it asks for that account's access
/// token, with the access lifetime and the stored role.
pub proof fn law_correct_password_is_accepted(
    config: JwtConfig,
    email: Seq<char>,
    password: Seq<char>,
    user: User,
    role: UserRole,
    next: AuthStep,
    action: AuthAction,
)
    requires
        password_check(password, user.password_hash@) == Ok::<bool, Seq<char>>(true),
        role_named(user.role@) == Some(role),
        login_moves(config, email, password, AuthStep::FindingUserByEmail, AuthEvent::UserFound(Ok(Some(user))), next, action),
    ensures
        action == (AuthAction::IssueToken { user_id: user.id, email: user.email, role, expiry_hours: config.expiry_hours }),
{
}

} // verus!
