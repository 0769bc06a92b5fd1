use booking::notification::{handle_event, subject_kind, EventKind};
use booking::errors::AppError;
use booking::notification::{
    get_notifications, get_qr_code, handle_appointment_cancelled, handle_appointment_created, notification_object_id,
    notifications_filter, AppointmentEvent, Notification, NotificationResponse,
};
use booking::qr::generate_qr_code;
use booking::time::UtcTime;

fn event() -> AppointmentEvent {
    AppointmentEvent {
        appointment_id: "a1".to_string(),
        slot_id: "s1".to_string(),
        customer_id: "c1".to_string(),
        provider_id: "p1".to_string(),
        start_time: "2024-05-01T10:00:00Z".to_string(),
        end_time: "2024-05-01T10:30:00Z".to_string(),
        status: "confirmed".to_string(),
    }
}

fn now() -> UtcTime {
    UtcTime { secs: 1714557600, nanos: 5 }
}

#[test]
fn booking_confirmation_carries_its_qr_code() {
    let n = handle_appointment_created(&event(), now()).unwrap();
    assert!(n.id.is_none());
    assert_eq!(n.user_id, "c1");
    assert_eq!(n.appointment_id, "a1");
    assert_eq!(n.notification_type, "booking_confirmed");
    assert_eq!(n.message, "Your appointment has been confirmed for 2024-05-01T10:00:00Z to 2024-05-01T10:30:00Z");
    assert_eq!(n.created_at, now());
    let qr = n.qr_code.unwrap();
    assert_eq!(qr, generate_qr_code("BOOKING:a1:c1:2024-05-01T10:00:00Z").unwrap());
}

#[test]
fn qr_codes_are_base64_pngs() {
    let q = generate_qr_code("BOOKING:x").unwrap();
    assert!(q.starts_with("iVBORw0KGgo"), "{}", &q[..16]);
    assert_ne!(q, generate_qr_code("BOOKING:y").unwrap());
    let too_long = "x".repeat(8000);
    assert!(matches!(generate_qr_code(&too_long), Err(AppError::Internal(m)) if m.starts_with("QR generation failed: ")));
}

#[test]
fn cancellation_notice() {
    let n = handle_appointment_cancelled(&event(), now());
    assert_eq!(n.notification_type, "booking_cancelled");
    assert_eq!(n.message, "Your appointment for 2024-05-01T10:00:00Z to 2024-05-01T10:30:00Z has been cancelled");
    assert!(n.qr_code.is_none());
    assert_eq!(n.user_id, "c1");
}

fn stored(id: Option<[u8; 12]>, qr: Option<&str>) -> Notification {
    Notification {
        id,
        user_id: "u".to_string(),
        appointment_id: "a".to_string(),
        notification_type: "booking_confirmed".to_string(),
        message: "m".to_string(),
        qr_code: qr.map(|s| s.to_string()),
        created_at: now(),
    }
}

#[test]
fn notifications_as_shown() {
    let id = [0x50, 0x7f, 0x1f, 0x77, 0xbc, 0xf8, 0x6c, 0xd7, 0x99, 0x43, 0x90, 0x11];
    let r = NotificationResponse::from(stored(Some(id), Some("q")));
    assert_eq!(r.id, "507f1f77bcf86cd799439011");
    assert_eq!(r.qr_code.as_deref(), Some("q"));
    assert_eq!(NotificationResponse::from(stored(None, None)).id, "");
    let all = get_notifications(vec![stored(Some(id), None), stored(None, Some("z"))]);
    assert_eq!(all.len(), 2);
    assert_eq!(all[0].id, "507f1f77bcf86cd799439011");
    assert_eq!(all[1].qr_code.as_deref(), Some("z"));
    assert_eq!(notifications_filter(1), "00000000-0000-0000-0000-000000000001");
}

#[test]
fn qr_lookup() {
    let id = notification_object_id("507F1F77bcf86cd799439011").unwrap();
    assert_eq!(id, [0x50, 0x7f, 0x1f, 0x77, 0xbc, 0xf8, 0x6c, 0xd7, 0x99, 0x43, 0x90, 0x11]);
    for bad in ["507f1f77bcf86cd79943901", "507f1f77bcf86cd79943901g", "", "507f1f77bcf86cd7994390110"] {
        assert!(matches!(notification_object_id(bad), Err(AppError::BadRequest(m)) if m == "Invalid notification ID"));
    }
    assert_eq!(get_qr_code(Some(stored(None, Some("png")))).unwrap(), "png");
    assert!(matches!(get_qr_code(Some(stored(None, None))), Err(AppError::NotFound(m)) if m == "No QR code for this notification"));
    assert!(matches!(get_qr_code(None), Err(AppError::NotFound(m)) if m == "Notification not found"));
}

#[test]
fn announcements_are_heard_by_kind() {
    assert_eq!(subject_kind("appointments.created"), Some(EventKind::Created));
    assert_eq!(subject_kind("appointments.cancelled"), Some(EventKind::Cancelled));
    assert_eq!(subject_kind("appointments.updated"), None);
    let n = handle_event(EventKind::Created, &event(), now()).unwrap();
    assert_eq!(n.notification_type, "booking_confirmed");
    assert_eq!((n.user_id.as_str(), n.appointment_id.as_str(), n.created_at), ("c1", "a1", now()));
    assert_eq!(n.message, "Your appointment has been confirmed for 2024-05-01T10:00:00Z to 2024-05-01T10:30:00Z");
    assert_eq!(n.qr_code, Some(generate_qr_code("BOOKING:a1:c1:2024-05-01T10:00:00Z").unwrap()));
    let n = handle_event(EventKind::Cancelled, &event(), now()).unwrap();
    assert_eq!(n.notification_type, "booking_cancelled");
    assert_eq!((n.user_id.as_str(), n.appointment_id.as_str(), n.created_at), ("c1", "a1", now()));
    assert_eq!(n.message, "Your appointment for 2024-05-01T10:00:00Z to 2024-05-01T10:30:00Z has been cancelled");
    assert!(n.qr_code.is_none());
}
