use callscreen::booking::{email_is_plausible, plan_resolution, prepare_booking, Resolution};
use callscreen::error::AppError;
use callscreen::models::{BookingListParams, BookingStatus, CreateBooking, CreateWhitelistEntry, WhitelistEntry};
use callscreen::whitelist::prepare_whitelist_entry;
use callscreen::store::MemoryStore;

fn request(name: &str, phone: &str, email: Option<&str>, reason: Option<&str>) -> CreateBooking {
    CreateBooking {
        caller_name: name.to_string(),
        caller_phone: phone.to_string(),
        caller_email: email.map(|e| e.to_string()),
        call_reason: reason.map(|r| r.to_string()),
    }
}

fn bad_request(r: Result<impl std::fmt::Debug, AppError>) -> String {
    match r {
        Err(AppError::BadRequest(m)) => m,
        other => panic!("expected a bad request, got {:?}", other),
    }
}

#[test]
fn submit_stores_pending_booking_with_canonical_phone() {
    let mut store = MemoryStore::new();
    let b = store.submit(&request("Jane Doe", "(555) 234-5678", None, None), 1_000).unwrap();
    assert_eq!(b.caller_phone.as_str(), "+15552345678");
    assert_eq!(b.status, BookingStatus::Pending);
    assert_eq!(b.caller_name, "Jane Doe");
    assert_eq!(b.created_at, 1_000);
    assert!(b.resolved_at.is_none());
    assert!(b.whitelist_entry_id.is_none());
    assert_eq!(store.booking_count(), 1);
    assert_eq!(store.entry_count(), 0);
    let stored = store.find_booking_by_id(b.id).unwrap();
    assert_eq!(stored.caller_phone.as_str(), "+15552345678");
}

#[test]
fn submit_rejects_area_code_starting_with_1() {
    let mut store = MemoryStore::new();
    let m = bad_request(store.submit(&request("Jane Doe", "123-456-7890", None, None), 1));
    assert_eq!(m, "invalid phone number: area code must start with 2-9");
    assert_eq!(store.booking_count(), 0);
}

#[test]
fn submit_checks_email_loosely() {
    let mut store = MemoryStore::new();
    let m = bad_request(store.submit(&request("Al", "555-234-5678", Some("al.example.com"), None), 1));
    assert_eq!(m, "invalid email format");
    assert_eq!(store.booking_count(), 0);
    let b = store.submit(&request("Al", "555-234-5678", Some("al@x"), Some("dentist")), 2).unwrap();
    assert_eq!(b.caller_email.as_deref(), Some("al@x"));
    assert_eq!(b.call_reason.as_deref(), Some("dentist"));
}

#[test]
fn email_check_looks_for_at_sign() {
    assert!(email_is_plausible("a@b"));
    assert!(email_is_plausible("@"));
    assert!(!email_is_plausible(""));
    assert!(!email_is_plausible("nobody"));
}

#[test]
fn prepare_booking_reports_phone_before_email() {
    let m = bad_request(prepare_booking(&request("X", "12", Some("bad"), None)));
    assert_eq!(m, "invalid phone number: expected 10-digit NANP number, got 2 digits");
}

#[test]
fn submissions_get_distinct_ids() {
    let mut store = MemoryStore::new();
    let a = store.submit(&request("A", "555-234-5678", None, None), 1).unwrap();
    let b = store.submit(&request("B", "555-234-5679", None, None), 2).unwrap();
    assert_ne!(a.id, b.id);
}

#[test]
fn approve_creates_linked_whitelist_entry_then_conflicts() {
    let mut store = MemoryStore::new();
    let b = store.submit(&request("Jane Doe", "(555) 234-5678", None, Some("plumber")), 10).unwrap();
    let approved = store.resolve(b.id, BookingStatus::Approved, 20).unwrap();
    assert_eq!(approved.status, BookingStatus::Approved);
    assert_eq!(approved.resolved_at, Some(20));
    let entry_id = approved.whitelist_entry_id.unwrap();
    let entry = store.find_entry_by_id(entry_id).unwrap();
    assert_eq!(entry.phone_number.as_str(), "+15552345678");
    assert_eq!(entry.name, "Jane Doe");
    assert_eq!(entry.reason.as_deref(), Some("plumber"));
    assert!(!entry.is_permanent);
    assert!(entry.expires_at.is_none());
    assert_eq!(store.entry_count(), 1);
    let stored = store.find_booking_by_id(b.id).unwrap();
    assert_eq!(stored.whitelist_entry_id, Some(entry_id));

    let again = store.resolve(b.id, BookingStatus::Approved, 30);
    assert!(matches!(again, Err(AppError::Conflict)));
    assert_eq!(store.entry_count(), 1);
}

#[test]
fn deny_sets_resolution_time_only_then_conflicts() {
    let mut store = MemoryStore::new();
    let b = store.submit(&request("Bob", "555-234-5678", None, None), 10).unwrap();
    let denied = store.resolve(b.id, BookingStatus::Denied, 15).unwrap();
    assert_eq!(denied.status, BookingStatus::Denied);
    assert_eq!(denied.resolved_at, Some(15));
    assert!(denied.whitelist_entry_id.is_none());
    assert_eq!(store.entry_count(), 0);

    let again = store.resolve(b.id, BookingStatus::Approved, 16);
    assert!(matches!(again, Err(AppError::Conflict)));
    assert_eq!(store.entry_count(), 0);
    let stored = store.find_booking_by_id(b.id).unwrap();
    assert_eq!(stored.status, BookingStatus::Denied);
    assert_eq!(stored.resolved_at, Some(15));
}

#[test]
fn resolved_booking_is_never_changed_again() {
    let mut store = MemoryStore::new();
    let b = store.submit(&request("Cy", "555-234-5678", None, None), 1).unwrap();
    store.resolve(b.id, BookingStatus::Approved, 2).unwrap();
    for target in [BookingStatus::Pending, BookingStatus::Approved, BookingStatus::Denied] {
        assert!(matches!(store.resolve(b.id, target, 3), Err(AppError::Conflict)));
    }
    let stored = store.find_booking_by_id(b.id).unwrap();
    assert_eq!(stored.status, BookingStatus::Approved);
    assert_eq!(stored.resolved_at, Some(2));
    assert_eq!(store.entry_count(), 1);
}

#[test]
fn resolve_unknown_booking_is_not_found() {
    let mut store = MemoryStore::new();
    assert!(matches!(store.resolve(42, BookingStatus::Approved, 1), Err(AppError::NotFound)));
}

#[test]
fn resolve_to_pending_is_bad_request() {
    let mut store = MemoryStore::new();
    let b = store.submit(&request("Di", "555-234-5678", None, None), 1).unwrap();
    let m = bad_request(store.resolve(b.id, BookingStatus::Pending, 2));
    assert_eq!(m, "cannot set status to pending");
    assert_eq!(store.find_booking_by_id(b.id).unwrap().status, BookingStatus::Pending);
}

#[test]
fn failed_update_leaves_no_whitelist_entry() {
    let mut store = MemoryStore::new();
    let pending = store.submit(&request("Ed", "555-234-5678", None, None), 1).unwrap();
    let done = store.submit(&request("Flo", "555-234-5679", None, None), 2).unwrap();
    store.resolve(done.id, BookingStatus::Denied, 3).unwrap();

    let mut tx = store.begin();
    let entry = tx.insert_whitelist_entry(&store, &pending, 4).unwrap();
    let update = tx.update_booking_approved(&store, done.id, entry.id, 4);
    assert!(matches!(update, Err(AppError::Conflict)));
    drop(tx);
    assert_eq!(store.entry_count(), 0);
    assert!(store.find_entry_by_id(entry.id).is_none());
    assert_eq!(store.find_booking_by_id(pending.id).unwrap().status, BookingStatus::Pending);
}

#[test]
fn committed_transaction_applies_both_writes() {
    let mut store = MemoryStore::new();
    let b = store.submit(&request("Gus", "555-234-5678", None, None), 1).unwrap();
    let mut tx = store.begin();
    let entry = tx.insert_whitelist_entry(&store, &b, 5).unwrap();
    let updated = tx.update_booking_approved(&store, b.id, entry.id, 5).unwrap();
    assert_eq!(store.entry_count(), 0);
    store.commit(tx);
    assert_eq!(store.entry_count(), 1);
    assert_eq!(store.find_booking_by_id(b.id).unwrap().whitelist_entry_id, Some(entry.id));
    assert_eq!(updated.status, BookingStatus::Approved);
}

#[test]
fn plan_resolution_decisions() {
    let mut store = MemoryStore::new();
    let b = store.submit(&request("Hal", "555-234-5678", None, None), 1).unwrap();
    assert_eq!(plan_resolution(Some(&b), BookingStatus::Approved).unwrap(), Resolution::Approve);
    assert_eq!(plan_resolution(Some(&b), BookingStatus::Denied).unwrap(), Resolution::Deny);
    assert!(matches!(plan_resolution(None, BookingStatus::Denied), Err(AppError::NotFound)));
    let denied = b.deny(2);
    assert!(matches!(plan_resolution(Some(&denied), BookingStatus::Denied), Err(AppError::Conflict)));
}

#[test]
fn list_filters_by_status() {
    let mut store = MemoryStore::new();
    let a = store.submit(&request("A", "555-234-5678", None, None), 1).unwrap();
    let b = store.submit(&request("B", "555-234-5679", None, None), 2).unwrap();
    store.resolve(b.id, BookingStatus::Denied, 3).unwrap();
    let all = store.list_bookings(&BookingListParams { status: None });
    assert_eq!(all.len(), 2);
    let pending = store.list_bookings(&BookingListParams { status: Some(BookingStatus::Pending) });
    assert_eq!(pending.len(), 1);
    assert_eq!(pending[0].id, a.id);
    let approved = store.list_bookings(&BookingListParams { status: Some(BookingStatus::Approved) });
    assert!(approved.is_empty());
}

#[test]
fn whitelist_request_defaults_to_not_permanent() {
    let input = CreateWhitelistEntry {
        phone_number: "+1 (555) 234-5678".to_string(),
        name: "Ivy".to_string(),
        reason: None,
        expires_at: Some(99),
        is_permanent: None,
    };
    let e = prepare_whitelist_entry(&input).unwrap();
    assert_eq!(e.phone_number.as_str(), "+15552345678");
    assert_eq!(e.name, "Ivy");
    assert_eq!(e.expires_at, Some(99));
    assert!(!e.is_permanent);
    let permanent = CreateWhitelistEntry { is_permanent: Some(true), ..input.clone() };
    assert!(prepare_whitelist_entry(&permanent).unwrap().is_permanent);
    let bad = CreateWhitelistEntry { phone_number: "555-034-5678".to_string(), ..input };
    let m = bad_request(prepare_whitelist_entry(&bad));
    assert_eq!(m, "invalid phone number: exchange must start with 2-9");
}

#[test]
fn approving_copies_caller_into_entry() {
    let mut store = MemoryStore::new();
    let b = store.submit(&request("Jo", "555-234-5678", Some("jo@x"), Some("callback")), 1).unwrap();
    let e = WhitelistEntry::for_booking(&b, 77, 9);
    assert_eq!(e.id, 77);
    assert_eq!(e.name, "Jo");
    assert_eq!(e.reason.as_deref(), Some("callback"));
    assert_eq!(e.created_at, 9);
    let a = b.approve(77, 9);
    assert_eq!(a.status, BookingStatus::Approved);
    assert_eq!(a.whitelist_entry_id, Some(77));
    assert_eq!(a.resolved_at, Some(9));
    assert_eq!(a.caller_email.as_deref(), Some("jo@x"));
}
