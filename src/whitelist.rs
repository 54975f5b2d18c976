use vstd::prelude::*;

use crate::error::AppError;
use crate::models::{duplicate_text, CreateWhitelistEntry};
use crate::phone::{message_of, parse_outcome, PhoneNumber, PhoneRejection};

verus! {

/// A direct whitelist request that passed validation.
#[derive(Clone, Debug)]
pub struct NewWhitelistEntry {
    pub phone_number: PhoneNumber,
    pub name: String,
    pub reason: Option<String>,
    pub expires_at: Option<i64>,
    pub is_permanent: bool,
}

/// Checks a direct whitelist request: the phone must parse; permanence
/// defaults to `false`.
pub fn prepare_whitelist_entry(input: &CreateWhitelistEntry) -> (r: Result<NewWhitelistEntry, AppError>)
    ensures
        r is Ok <==> parse_outcome(input.phone_number@) is Ok,
        r matches Ok(e) ==> {
            &&& Ok::<Seq<char>, PhoneRejection>(e.phone_number@) == parse_outcome(input.phone_number@)
            &&& e.phone_number.wf()
            &&& e.name == input.name
            &&& e.reason == input.reason
            &&& e.expires_at == input.expires_at
            &&& e.is_permanent == (input.is_permanent == Some(true))
        },
        r matches Err(e) ==> e matches AppError::BadRequest(m)
            && m@ == message_of(parse_outcome(input.phone_number@)->Err_0),
{
    let phone = match PhoneNumber::parse_north_american(input.phone_number.as_str()) {
        Ok(p) => p,
        Err(e) => {
            return Err(AppError::BadRequest(e.message()));
        },
    };
    let is_permanent = match input.is_permanent {
        Some(p) => p,
        None => false,
    };
    Ok(NewWhitelistEntry {
        phone_number: phone,
        name: input.name.clone(),
        reason: duplicate_text(&input.reason),
        expires_at: input.expires_at,
        is_permanent,
    })
}

} // verus!
