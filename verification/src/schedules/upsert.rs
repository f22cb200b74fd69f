use vstd::prelude::*;
use vstd::string::*;

verus! {

/// What to do with a row after looking it up by its reference.
pub enum UpsertStep<R> {
    /// The lookup failed; the message says why.
    Failed(String),
    /// The row exists under `id`; `needs_update` says whether its stored fields differ
    /// from the current ones, so that the row must be rewritten with them.
    Found { id: i32, needs_update: bool },
    /// The row does not exist yet: insert this one.
    Insert(R),
}

/// `prefix` followed by the text of the lookup error.
pub fn lookup_error(prefix: &str, err: &String) -> (r: String)
    ensures
        r@ == prefix@ + err@,
{
    let mut msg = prefix.to_owned();
    msg.append(err.as_str());
    msg
}

/// Whether the stored text `stored` differs from `current`.
pub fn text_differs(stored: &String, current: &str) -> (r: bool)
    ensures
        r == (stored@ != current@),
{
    !(*stored == current.to_owned())
}

} // verus!
