use vstd::prelude::*;
use vstd::string::*;

verus! {

/// The text shown for an operation that was cancelled: a no-entry sign, a
/// space, then the message.
pub open spec fn cancelled_text(message: Seq<char>) -> Seq<char> {
    "\u{1f6ab} "@ + message
}

/// Formats a cancellation notice for `message`.
pub fn format_cancelled(message: &str) -> (r: String)
    ensures
        r@ == cancelled_text(message@),
{
    let mut s = String::from_str("\u{1f6ab} ");
    s.append(message);
    s
}

} // verus!
