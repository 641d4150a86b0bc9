//! The notification side of the lifecycle: what this crate can pin
//! down about an outbound confirmation email is its content, built
//! here exactly; carrying it to a relay is transport work that lives
//! outside the library, behind the contract that failures are reported
//! synchronously to the caller.

use vstd::prelude::*;

use crate::domain::SanitizedName;
use crate::token::{token_string, uuid_text};

verus! {

/// A notification attempt that the transport reported as failed. The
/// subscriber row it was about stays persisted, unconfirmed.
#[derive(Debug, PartialEq, Eq, Structural)]
pub struct SendError;

/// A mail client that could not be built or could not reach its relay.
#[derive(Debug, PartialEq, Eq, Structural)]
pub struct LettreClientError;

/// The text of the confirmation email: a greeting to `name`, an
/// instruction, and the confirmation link `base_url`/confirm/`token`.
pub open spec fn confirmation_text(name: Seq<char>, base_url: Seq<char>, token: u128) -> Seq<
    char,
> {
    "Hello "@ + name + ",\nClick here to confirm your account\n\n "@ + base_url + "/confirm/"@
        + uuid_text(token)
}

/// Builds the confirmation message, character for character the text
/// above: the activation token reaches its recipient inside a link of
/// the form `{base_url}/confirm/{token}`, and nowhere else.
pub fn confirmation_message(name: &SanitizedName, base_url: &str, token: u128) -> (m: String)
    ensures
        m@ == confirmation_text(name@, base_url@, token),
{
    let mut m = String::from_str("Hello ");
    m.append(name.as_str());
    m.append(",\nClick here to confirm your account\n\n ");
    m.append(base_url);
    m.append("/confirm/");
    let tok = token_string(token);
    m.append(tok.as_str());
    proof {
        assert(m@ =~= confirmation_text(name@, base_url@, token));
    }
    m
}

/// The `display <address>` form of a sender or recipient header line.
pub fn mailbox_text(display: &str, address: &str) -> (m: String)
    ensures
        m@ == display@ + " <"@ + address@ + ">"@,
{
    let mut m = String::from_str(display);
    m.append(" <");
    m.append(address);
    m.append(">");
    proof {
        assert(m@ =~= display@ + " <"@ + address@ + ">"@);
    }
    m
}

} // verus!
