//! The one error that the bindings report: a message, and nothing else.

use vstd::prelude::*;
use vstd::std_specs::convert::FromSpecImpl;
use crate::decimal::{decimal, lemma_decimal_is_injective, push_decimal};
use crate::native_string::NulError;

verus! {

/// Why an operation of the bindings failed, as a message for people.
///
/// Its view is the message.
#[derive(Debug)]
pub struct Error {
    message: String,
}

impl View for Error {
    type V = Seq<char>;

    closed spec fn view(&self) -> Seq<char> {
        self.message@
    }
}

/// The message for a string that held a nul byte at `position`.
pub open spec fn nul_message(position: nat) -> Seq<char> {
    "interior nul byte found at "@ + decimal(position)
}

/// The message tells the position: two positions with the same
/// message are the same position.
pub proof fn lemma_nul_message_tells_position(a: nat, b: nat)
    requires
        nul_message(a) == nul_message(b),
    ensures
        a == b,
{
    let lead = "interior nul byte found at "@;
    assert((lead + decimal(a)).skip(lead.len() as int) =~= decimal(a));
    assert((lead + decimal(b)).skip(lead.len() as int) =~= decimal(b));
    lemma_decimal_is_injective(a, b);
}

impl Error {
    /// The error for a failure that is known only by how the system
    /// describes it, as an I/O failure is.
    pub fn from_description(description: String) -> (e: Error)
        ensures
            e@ == description@,
    {
        Error { message: description }
    }

    /// The message.
    pub fn description(&self) -> (message: &str)
        ensures
            message@ == self@,
    {
        self.message.as_str()
    }

    /// The message, owned: what displaying the error shows.
    pub fn to_string(&self) -> (message: String)
        ensures
            message@ == self@,
    {
        self.message.clone()
    }
}

impl From<NulError> for Error {
    /// Reports the place of the nul byte in words.
    fn from(e: NulError) -> (r: Error)
        ensures
            r@ == nul_message(e.position() as nat),
    {
        let mut message = String::from_str("interior nul byte found at ");
        push_decimal(&mut message, e.nul_position());
        Error { message }
    }
}

/// Two errors with the same message need not be the same value, so the
/// conversion is stated on `from` itself, over the view, and not here.
impl FromSpecImpl<NulError> for Error {
    open spec fn obeys_from_spec() -> bool {
        false
    }

    open spec fn from_spec(e: NulError) -> Error {
        arbitrary()
    }
}

} // verus!
