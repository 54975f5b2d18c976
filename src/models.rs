use vstd::prelude::*;
use vstd::string::*;

use crate::phone::PhoneNumber;

verus! {

/// Where a booking stands: waiting for an operator, or resolved one way or the other.
#[derive(Clone, Copy, Debug, PartialEq, Eq, Structural)]
pub enum BookingStatus {
    Pending,
    Approved,
    Denied,
}

/// A copy of an optional text.
pub fn duplicate_text(o: &Option<String>) -> (r: Option<String>)
    ensures
        r == *o,
{
    match o {
        Some(s) => Some(s.clone()),
        None => None,
    }
}

/// One screening request from a caller. Identifiers are 128-bit values;
/// times are microseconds since the Unix epoch.
#[derive(Clone, Debug)]
pub struct Booking {
    pub id: u128,
    pub caller_name: String,
    pub caller_phone: PhoneNumber,
    pub caller_email: Option<String>,
    pub call_reason: Option<String>,
    pub status: BookingStatus,
    pub created_at: i64,
    pub resolved_at: Option<i64>,
    pub whitelist_entry_id: Option<u128>,
}

impl Booking {
    /// A pending booking carries no resolution time and no whitelist entry; a
    /// resolved one has a resolution time; only an approved one has an entry.
    pub open spec fn wf(&self) -> bool {
        &&& self.caller_phone.wf()
        &&& (self.status == BookingStatus::Pending) ==> (self.resolved_at is None && self.whitelist_entry_id is None)
        &&& (self.status != BookingStatus::Pending) ==> self.resolved_at is Some
        &&& (self.whitelist_entry_id is Some <==> self.status == BookingStatus::Approved)
    }

    /// A copy of this booking.
    pub fn duplicate(&self) -> (r: Booking)
        ensures
            r == *self,
    {
        Booking {
            id: self.id,
            caller_name: self.caller_name.clone(),
            caller_phone: self.caller_phone.duplicate(),
            caller_email: duplicate_text(&self.caller_email),
            call_reason: duplicate_text(&self.call_reason),
            status: self.status,
            created_at: self.created_at,
            resolved_at: self.resolved_at,
            whitelist_entry_id: self.whitelist_entry_id,
        }
    }
}

/// A request to book a call, as the caller typed it.
#[derive(Clone, Debug)]
pub struct CreateBooking {
    pub caller_name: String,
    pub caller_phone: String,
    pub caller_email: Option<String>,
    pub call_reason: Option<String>,
}

/// An operator's decision on a booking.
#[derive(Clone, Copy, Debug)]
pub struct UpdateBookingStatus {
    pub status: BookingStatus,
}

/// Which bookings to list: all of them, or those with one status.
#[derive(Clone, Copy, Debug)]
pub struct BookingListParams {
    pub status: Option<BookingStatus>,
}

impl BookingListParams {
    /// Whether `b` is among the bookings asked for.
    pub fn admits(&self, b: &Booking) -> (r: bool)
        ensures
            r == match self.status {
                None => true,
                Some(s) => b.status == s,
            },
    {
        match self.status {
            None => true,
            Some(s) => b.status == s,
        }
    }
}

/// A caller allowed to bypass screening.
#[derive(Clone, Debug)]
pub struct WhitelistEntry {
    pub id: u128,
    pub phone_number: PhoneNumber,
    pub name: String,
    pub reason: Option<String>,
    pub created_at: i64,
    pub expires_at: Option<i64>,
    pub is_permanent: bool,
}

impl WhitelistEntry {
    /// A copy of this entry.
    pub fn clone_entry(&self) -> (r: WhitelistEntry)
        ensures
            r == *self,
    {
        WhitelistEntry {
            id: self.id,
            phone_number: self.phone_number.duplicate(),
            name: self.name.clone(),
            reason: duplicate_text(&self.reason),
            created_at: self.created_at,
            expires_at: self.expires_at,
            is_permanent: self.is_permanent,
        }
    }
}

/// A request to add a caller to the whitelist directly.
#[derive(Clone, Debug)]
pub struct CreateWhitelistEntry {
    pub phone_number: String,
    pub name: String,
    pub reason: Option<String>,
    pub expires_at: Option<i64>,
    pub is_permanent: Option<bool>,
}

/// The envelope of every answer: the data on success, a message on failure.
#[derive(Clone, Debug)]
pub struct ApiResponse<T> {
    pub success: bool,
    pub data: Option<T>,
    pub error: Option<String>,
}

impl<T> ApiResponse<T> {
    pub fn success(data: T) -> (r: ApiResponse<T>)
        ensures
            r.success,
            r.data == Some(data),
            r.error is None,
    {
        ApiResponse { success: true, data: Some(data), error: None }
    }

    pub fn error(message: &str) -> (r: ApiResponse<T>)
        ensures
            !r.success,
            r.data is None,
            r.error is Some && r.error->0@ == message@,
    {
        ApiResponse { success: false, data: None, error: Some(String::from_str(message)) }
    }
}

/// The largest page size served; larger requests are cut down to it.
pub const MAX_PER_PAGE: u32 = 100;

/// The page served when none is asked for.
pub fn default_page() -> (r: u32)
    ensures
        r == 1,
{
    1
}

/// The page size used when none is asked for.
pub fn default_per_page() -> (r: u32)
    ensures
        r == 20,
{
    20
}

/// A page of a listing: pages count from 1.
#[derive(Clone, Copy, Debug)]
pub struct Pagination {
    pub page: u32,
    pub per_page: u32,
}

impl Pagination {
    /// Refuses a page or a page size of 0, and cuts a page size above
    /// `MAX_PER_PAGE` down to it.
    pub fn validate(self) -> (r: Result<Pagination, String>)
        ensures
            self.page == 0 ==> r is Err && r->Err_0@ == "page must be >= 1"@,
            self.page != 0 && self.per_page == 0 ==> r is Err && r->Err_0@ == "per_page must be >= 1"@,
            self.page != 0 && self.per_page != 0 ==> r is Ok
                && r->Ok_0.page == self.page
                && r->Ok_0.per_page == if self.per_page > MAX_PER_PAGE { MAX_PER_PAGE } else { self.per_page },
    {
        if self.page == 0 {
            return Err(String::from_str("page must be >= 1"));
        }
        if self.per_page == 0 {
            return Err(String::from_str("per_page must be >= 1"));
        }
        let per_page = if self.per_page > MAX_PER_PAGE { MAX_PER_PAGE } else { self.per_page };
        Ok(Pagination { page: self.page, per_page })
    }

    /// How many rows come before this page.
    pub fn offset(&self) -> (r: i64)
        requires
            self.page >= 1,
            (self.page - 1) * self.per_page <= i64::MAX,
        ensures
            r == (self.page - 1) * self.per_page,
    {
        let skipped = (self.page - 1) as i64;
        skipped * (self.per_page as i64)
    }

    /// How many rows this page holds at most.
    pub fn limit(&self) -> (r: i64)
        ensures
            r == self.per_page,
    {
        self.per_page as i64
    }
}

/// One page of a listing, with the size of the whole.
#[derive(Clone, Debug)]
pub struct PaginatedResponse<T> {
    pub total: i64,
    pub page: u32,
    pub per_page: u32,
    pub data: Vec<T>,
}

/// The answer to a health check.
#[derive(Clone, Debug)]
pub struct HealthResponse {
    pub status: String,
    pub version: String,
}

} // verus!
