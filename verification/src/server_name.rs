//! The name a peer is expected to present.
//!
//! Before TLS is originated the destination address is resolved backwards to
//! a DNS name. The first name of the answer, without its root-zone dot, is
//! the server name of the handshake, provided it is a valid DNS name.

use vstd::prelude::*;
use rustls::pki_types::DnsName;

verus! {

/// What the resolver answered to a reverse lookup.
#[derive(Debug, PartialEq, Eq)]
pub enum LookupOutcome {
    /// The names of the pointer records, in the order of the answer.
    Names(Vec<String>),
    /// The reverse zone holds no record for the address.
    NoRecords,
    /// The lookup failed in transport or at the server.
    Failed,
}

/// Why an address has no server name.
#[derive(Clone, Copy, Debug, PartialEq, Eq, Structural)]
pub enum NameError {
    /// The reverse zone yielded no name.
    NoNameFound,
    /// The lookup itself failed.
    ResolutionError,
    /// The name found is not a valid DNS name.
    InvalidName,
}

/// A lookup outcome with its names as sequences of characters.
pub enum LookupOutcomeView {
    Names(Seq<Seq<char>>),
    NoRecords,
    Failed,
}

impl View for LookupOutcome {
    type V = LookupOutcomeView;

    open spec fn view(&self) -> LookupOutcomeView {
        match *self {
            LookupOutcome::Names(names) => LookupOutcomeView::Names(
                Seq::new(names@.len(), |i: int| names@[i]@),
            ),
            LookupOutcome::NoRecords => LookupOutcomeView::NoRecords,
            LookupOutcome::Failed => LookupOutcomeView::Failed,
        }
    }
}

/// A name without its root-zone dot: one trailing `.` is taken off, if
/// there is one.
pub open spec fn strip_root_dot(name: Seq<char>) -> Seq<char> {
    if name.len() > 0 && name.last() == '.' {
        name.drop_last()
    } else {
        name
    }
}

/// Whether `rustls::pki_types::DnsName::try_from` accepts a text as a
/// syntactically valid DNS name.
pub uninterp spec fn is_dns_name(name: Seq<char>) -> bool;

/// The server name that a candidate gives, once it is known whether the
/// candidate is a valid DNS name.
pub open spec fn checked_name(candidate: Seq<char>, valid: bool) -> Result<Seq<char>, NameError> {
    if valid {
        Ok(candidate)
    } else {
        Err(NameError::InvalidName)
    }
}

/// The server name that a lookup outcome gives.
pub open spec fn server_name_of(lookup: LookupOutcomeView) -> Result<Seq<char>, NameError> {
    match lookup {
        LookupOutcomeView::Failed => Err(NameError::ResolutionError),
        LookupOutcomeView::NoRecords => Err(NameError::NoNameFound),
        LookupOutcomeView::Names(names) => if names.len() == 0 {
            Err(NameError::NoNameFound)
        } else {
            checked_name(strip_root_dot(names[0]), is_dns_name(strip_root_dot(names[0])))
        },
    }
}

/// A server name, or the reason there is none, with the name as a sequence
/// of characters.
pub open spec fn name_view(name: Result<String, NameError>) -> Result<Seq<char>, NameError> {
    match name {
        Ok(text) => Ok(text@),
        Err(e) => Err(e),
    }
}

/// Calls `rustls::pki_types::DnsName::try_from` on `name` and tells whether
/// it returned `Ok`. Nothing of this is proved. The contract claims that the
/// answer depends on the text alone, so that [`is_dns_name`] can stand for
/// it, and that the empty text is never accepted.
#[verifier::external_body]
fn accepts_dns_name(name: &str) -> (valid: bool)
    ensures
        valid == is_dns_name(name@),
        valid ==> name@.len() > 0,
{
    DnsName::try_from(name).is_ok()
}

/// Takes one trailing root-zone dot off a resolved name.
pub fn normalize_dns_name(name: &str) -> (normal: String)
    ensures
        normal@ == strip_root_dot(name@),
        name@.len() > 0 && name@.last() == '.' ==> normal@ + seq!['.'] == name@,
        !(name@.len() > 0 && name@.last() == '.') ==> normal@ == name@,
{
    let len: usize = name.unicode_len();
    if len > 0 && name.get_char(len - 1) == '.' {
        let stem = name.substring_char(0, len - 1).to_owned();
        assert(stem@ + seq!['.'] =~= name@);
        stem
    } else {
        name.to_owned()
    }
}

/// Decides on a candidate name, given whether it is a valid DNS name.
pub fn check_server_name(candidate: String, valid: bool) -> (name: Result<String, NameError>)
    ensures
        name_view(name) == checked_name(candidate@, valid),
{
    if valid {
        Ok(candidate)
    } else {
        Err(NameError::InvalidName)
    }
}

/// Finds the server name for a handshake from the outcome of the reverse
/// lookup of the destination.
///
/// The name is the first one of the answer without its root-zone dot. There
/// is none when the lookup failed, when it found no name, or when the name
/// found is not a valid DNS name.
pub fn find_tls_server_name(lookup: &LookupOutcome) -> (name: Result<String, NameError>)
    ensures
        name_view(name) == server_name_of(lookup@),
        name matches Ok(text) ==> text@.len() > 0,
{
    match lookup {
        LookupOutcome::Failed => Err(NameError::ResolutionError),
        LookupOutcome::NoRecords => Err(NameError::NoNameFound),
        LookupOutcome::Names(names) => {
            if names.len() == 0 {
                Err(NameError::NoNameFound)
            } else {
                let candidate = normalize_dns_name(names[0].as_str());
                let valid = accepts_dns_name(candidate.as_str());
                check_server_name(candidate, valid)
            }
        },
    }
}

} // verus!
