//! The outbound payload: the plain values the coordinator reads out of a
//! caller-supplied RFC 5322 message, extracted once at the submission
//! boundary so everything behind it works on data the verifier can see.

use vstd::prelude::*;

use crate::error::Error;

verus! {

#[verifier::external_type_specification]
#[verifier::external_body]
pub struct ExEmail(email_format::Email);

/// A pre-validated outbound message, ready for the worker.
pub struct PreparedEmail {
    /// The identifier under which delivery state is tracked; unique per
    /// submission.
    pub message_id: String,
    /// The envelope recipients, as address text. A prepared payload always
    /// has at least one.
    pub recipients: Vec<String>,
    /// The message in RFC 5322 wire form, as handed to the delivery
    /// procedure.
    pub data: Vec<u8>,
}

/// The envelope recipients a message names in its To, Cc and Bcc headers,
/// in that order, one sequence of address text per address. A function of
/// the message value alone; what it is on a given message only a call can
/// show.
pub uninterp spec fn recipients_of(rfc: email_format::Email) -> Seq<Seq<char>>;

/// Relies on email_format::Email::get_to, get_cc and get_bcc: the envelope
/// recipients named by the message's address headers, one string of address
/// text per address, headers in To, Cc, Bcc order.
#[verifier::external_body]
fn rfc_recipients(rfc: &email_format::Email) -> (r: Vec<String>)
    ensures
        r@.map_values(|s: String| s@) == recipients_of(*rfc),
{
    let mut all: Vec<email_format::rfc5322::types::Address> = Vec::new();
    if let Some(to) = rfc.get_to() {
        all.extend((to.0).0);
    }
    if let Some(cc) = rfc.get_cc() {
        all.extend((cc.0).0);
    }
    if let Some(email_format::rfc5322::headers::Bcc::AddressList(al)) = rfc.get_bcc() {
        all.extend(al.0);
    }
    all.iter().map(|a| format!("{}", a).trim().to_string()).collect()
}

/// The RFC 5322 wire form of a message: a function of the message value
/// alone; what it is on a given message only a call can show.
pub uninterp spec fn bytes_of(rfc: email_format::Email) -> Seq<u8>;

/// Relies on email_format::Email::as_bytes: the message in RFC 5322 wire
/// form, headers first, then the body. Streaming never fails and never
/// panics; it writes only into a fresh byte vector.
#[verifier::external_body]
fn rfc_bytes(rfc: &email_format::Email) -> (r: Vec<u8>)
    ensures
        r@ == bytes_of(*rfc),
{
    rfc.as_bytes()
}

/// Relies on uuid::Uuid::new_v4 and its hyphenated text form, which is
/// always 36 characters: an identifier that is fresh on every call.
#[verifier::external_body]
fn fresh_uuid() -> (r: String)
    ensures
        r@.len() == 36,
{
    format!("{}", uuid::Uuid::new_v4())
}

/// A fresh message identifier, qualified by the configured host name in the
/// customary `local@host` shape.
fn fresh_message_id(helo_name: &String) -> (r: String)
    ensures
        r@.len() == 37 + helo_name@.len(),
{
    let mut id = fresh_uuid();
    proof {
        reveal_strlit("@");
    }
    id.append("@");
    id.append(helo_name.as_str());
    id
}

/// Build the worker's payload from the values extracted from a caller's
/// message. The single validation rule at this boundary: a message that
/// names no recipient cannot be dispatched.
pub fn prepare_email(message_id: String, recipients: Vec<String>, data: Vec<u8>) -> (r: Result<
    PreparedEmail,
    Error,
>)
    ensures
        r is Ok <==> recipients@.len() > 0,
        r matches Ok(p) ==> p.message_id == message_id && p.recipients == recipients && p.data
            == data,
        r matches Err(e) ==> e == Error::Validation,
{
    if recipients.len() == 0 {
        Err(Error::Validation)
    } else {
        Ok(PreparedEmail { message_id, recipients, data })
    }
}

/// Validate and transform one caller-supplied message into the worker's
/// payload, before it ever touches the command channel: accepted exactly
/// when the message names a recipient, and then the payload is the
/// message's own wire form under a fresh qualified identifier.
pub fn prepare_rfc_email(rfc: &email_format::Email, helo_name: &String) -> (r: Result<
    PreparedEmail,
    Error,
>)
    ensures
        r is Ok <==> recipients_of(*rfc).len() > 0,
        r matches Ok(p) ==> p.recipients@.map_values(|s: String| s@) == recipients_of(*rfc)
            && p.data@ == bytes_of(*rfc) && p.message_id@.len() == 37 + helo_name@.len(),
        r matches Err(e) ==> e == Error::Validation,
{
    let recipients = rfc_recipients(rfc);
    let data = rfc_bytes(rfc);
    let message_id = fresh_message_id(helo_name);
    prepare_email(message_id, recipients, data)
}

} // verus!
