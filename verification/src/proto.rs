//! Trusted boundary to the protocol crate.
//!
//! Parsing and rendering of wire messages belong to the protocol
//! collaborator; the bridge only decides what to do with their outcomes.
//! The items here declare the collaborator's message type and wrap the two
//! calls the logic makes into it.

use vstd::prelude::*;

verus! {

/// Declares `irc::proto::Message`, the collaborator's parsed wire message;
/// its values are carried through the bridge opaquely.
#[verifier::external_type_specification]
#[verifier::external_body]
pub struct ExMessage(irc::proto::Message);

/// Whether a line of text parses as a protocol message; parsing is a
/// function of the characters alone.
pub uninterp spec fn parses_ok(s: Seq<char>) -> bool;

/// Relies on the `FromStr` impl of `irc::proto::Message`: a line either
/// parses into a message or is rejected, depending on the line alone.
#[verifier::external_body]
pub(crate) fn parse_message(s: &str) -> (r: Option<irc::proto::Message>)
    ensures
        r is Some <==> parses_ok(s@),
{
    match <irc::proto::Message as core::str::FromStr>::from_str(s) {
        Ok(m) => Some(m),
        Err(_) => None,
    }
}

/// Relies on the `Display` impl of `irc::proto::Message`: renders the
/// message in its canonical wire form.  Nothing is assumed about the text.
#[verifier::external_body]
pub(crate) fn render_message(m: &irc::proto::Message) -> (r: String) {
    m.to_string()
}

} // verus!
