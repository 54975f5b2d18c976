use vstd::prelude::*;
use vstd::string::*;

use crate::error::AppError;
use crate::models::{duplicate_text, Booking, BookingStatus, CreateBooking, WhitelistEntry};
use crate::phone::{message_of, parse_outcome, PhoneNumber, PhoneRejection};

verus! {

/// An e-mail address passes the deliberately loose check when it holds an `@`.
pub open spec fn email_acceptable(email: Option<String>) -> bool {
    match email {
        None => true,
        Some(e) => e@.contains('@'),
    }
}

/// Whether `email` holds an `@`.
pub fn email_is_plausible(email: &str) -> (r: bool)
    ensures
        r == email@.contains('@'),
{
    let n = email.unicode_len();
    let mut i: usize = 0;
    while i < n
        invariant
            n == email@.len(),
            i <= n,
            forall|j: int| 0 <= j < i ==> email@[j] != '@',
        decreases n - i,
    {
        if email.get_char(i) == '@' {
            return true;
        }
        i = i + 1;
    }
    false
}

/// A booking request that passed validation, with its phone in canonical form.
#[derive(Clone, Debug)]
pub struct NewBooking {
    pub caller_name: String,
    pub caller_phone: PhoneNumber,
    pub caller_email: Option<String>,
    pub call_reason: Option<String>,
}

/// Whether a booking request is accepted: its phone parses and its e-mail, if
/// any, holds an `@`.
pub open spec fn submission_acceptable(input: CreateBooking) -> bool {
    parse_outcome(input.caller_phone@) is Ok && email_acceptable(input.caller_email)
}

/// Checks a booking request and puts its phone in canonical form.
pub fn prepare_booking(input: &CreateBooking) -> (r: Result<NewBooking, AppError>)
    ensures
        r is Ok <==> submission_acceptable(*input),
        r matches Ok(nb) ==> {
            &&& Ok::<Seq<char>, PhoneRejection>(nb.caller_phone@) == parse_outcome(input.caller_phone@)
            &&& nb.caller_phone.wf()
            &&& nb.caller_name == input.caller_name
            &&& nb.caller_email == input.caller_email
            &&& nb.call_reason == input.call_reason
        },
        r matches Err(e) ==> e matches AppError::BadRequest(m) && match parse_outcome(input.caller_phone@) {
            Err(rej) => m@ == message_of(rej),
            Ok(_) => m@ == "invalid email format"@,
        },
{
    let phone = match PhoneNumber::parse_north_american(input.caller_phone.as_str()) {
        Ok(p) => p,
        Err(e) => {
            return Err(AppError::BadRequest(e.message()));
        },
    };
    match &input.caller_email {
        Some(email) => {
            if !email_is_plausible(email.as_str()) {
                return Err(AppError::BadRequest(String::from_str("invalid email format")));
            }
        },
        None => {},
    }
    Ok(NewBooking {
        caller_name: input.caller_name.clone(),
        caller_phone: phone,
        caller_email: duplicate_text(&input.caller_email),
        call_reason: duplicate_text(&input.call_reason),
    })
}

/// The write that resolving a pending booking calls for.
#[derive(Clone, Copy, Debug, PartialEq, Eq, Structural)]
pub enum Resolution {
    /// Mark the booking denied.
    Deny,
    /// Add the caller to the whitelist and mark the booking approved, both in
    /// one transaction.
    Approve,
}

/// Decides what resolving the booking `existing` (absent if no booking has the
/// identifier) to `target` calls for.
pub fn plan_resolution(existing: Option<&Booking>, target: BookingStatus) -> (r: Result<Resolution, AppError>)
    ensures
        existing is None ==> r == Err::<Resolution, AppError>(AppError::NotFound),
        existing matches Some(b) && b.status != BookingStatus::Pending
            ==> r == Err::<Resolution, AppError>(AppError::Conflict),
        existing matches Some(b) && b.status == BookingStatus::Pending ==> match target {
            BookingStatus::Pending => r matches Err(AppError::BadRequest(m)) && m@ == "cannot set status to pending"@,
            BookingStatus::Approved => r == Ok::<Resolution, AppError>(Resolution::Approve),
            BookingStatus::Denied => r == Ok::<Resolution, AppError>(Resolution::Deny),
        },
{
    let b = match existing {
        None => {
            return Err(AppError::NotFound);
        },
        Some(b) => b,
    };
    if b.status != BookingStatus::Pending {
        return Err(AppError::Conflict);
    }
    match target {
        BookingStatus::Pending => Err(AppError::BadRequest(String::from_str("cannot set status to pending"))),
        BookingStatus::Approved => Ok(Resolution::Approve),
        BookingStatus::Denied => Ok(Resolution::Deny),
    }
}

/// A pending booking, as stored when it is first submitted.
pub open spec fn pending_booking(nb: NewBooking, id: u128, now: i64) -> Booking {
    Booking {
        id,
        caller_name: nb.caller_name,
        caller_phone: nb.caller_phone,
        caller_email: nb.caller_email,
        call_reason: nb.call_reason,
        status: BookingStatus::Pending,
        created_at: now,
        resolved_at: None,
        whitelist_entry_id: None,
    }
}

/// `b` after it is denied at `now`.
pub open spec fn denied(b: Booking, now: i64) -> Booking {
    Booking { status: BookingStatus::Denied, resolved_at: Some(now), ..b }
}

/// `b` after it is approved at `now`, pointing at the whitelist entry `entry_id`.
pub open spec fn approved(b: Booking, entry_id: u128, now: i64) -> Booking {
    Booking {
        status: BookingStatus::Approved,
        resolved_at: Some(now),
        whitelist_entry_id: Some(entry_id),
        ..b
    }
}

/// The whitelist entry that approving `b` creates: the caller's phone, name and
/// reason, not permanent, with no expiry.
pub open spec fn entry_for(b: Booking, id: u128, now: i64) -> WhitelistEntry {
    WhitelistEntry {
        id,
        phone_number: b.caller_phone,
        name: b.caller_name,
        reason: b.call_reason,
        created_at: now,
        expires_at: None,
        is_permanent: false,
    }
}

impl NewBooking {
    /// The booking stored for this request, pending.
    pub fn into_pending(self, id: u128, now: i64) -> (r: Booking)
        ensures
            r == pending_booking(self, id, now),
            self.caller_phone.wf() ==> r.wf(),
    {
        Booking {
            id,
            caller_name: self.caller_name,
            caller_phone: self.caller_phone,
            caller_email: self.caller_email,
            call_reason: self.call_reason,
            status: BookingStatus::Pending,
            created_at: now,
            resolved_at: None,
            whitelist_entry_id: None,
        }
    }
}

impl Booking {
    /// This booking, denied at `now`.
    pub fn deny(&self, now: i64) -> (r: Booking)
        ensures
            r == denied(*self, now),
            self.wf() && self.status == BookingStatus::Pending ==> r.wf(),
    {
        let mut r = self.duplicate();
        r.status = BookingStatus::Denied;
        r.resolved_at = Some(now);
        r
    }

    /// This booking, approved at `now` with the whitelist entry `entry_id`.
    pub fn approve(&self, entry_id: u128, now: i64) -> (r: Booking)
        ensures
            r == approved(*self, entry_id, now),
            self.wf() ==> r.wf(),
    {
        let mut r = self.duplicate();
        r.status = BookingStatus::Approved;
        r.resolved_at = Some(now);
        r.whitelist_entry_id = Some(entry_id);
        r
    }
}

impl WhitelistEntry {
    /// The entry that approving `b` creates.
    pub fn for_booking(b: &Booking, id: u128, now: i64) -> (r: WhitelistEntry)
        ensures
            r == entry_for(*b, id, now),
    {
        WhitelistEntry {
            id,
            phone_number: b.caller_phone.duplicate(),
            name: b.caller_name.clone(),
            reason: duplicate_text(&b.call_reason),
            created_at: now,
            expires_at: None,
            is_permanent: false,
        }
    }
}

} // verus!
