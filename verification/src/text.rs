//! Text helpers shared by the clients and the orchestrator.
use vstd::prelude::*;

verus! {

/// The text that Rust's `Debug` formatting writes for a string: the string in
/// double quotes, with its special characters escaped.
pub uninterp spec fn debug_text(s: Seq<char>) -> Seq<char>;

/// Formats a string with `Debug`, as `format!("{:?}", s)` does.
///
/// Trusted: the result is std's `Debug` rendering of `s`, which depends on
/// the characters of `s` alone. The rendering itself is not spelled out.
#[verifier::external_body]
pub(crate) fn debug_str(s: &str) -> (r: String)
    ensures
        r@ == debug_text(s@),
{
    format!("{:?}", s)
}

/// `Some` of a text shown as `Debug` shows an `Option<String>`.
pub open spec fn debug_option(o: Option<Seq<char>>) -> Seq<char> {
    match o {
        Some(s) => "Some("@ + debug_text(s) + ")"@,
        None => "None"@,
    }
}

/// Renders an optional string as its `Debug` form: `None`, or `Some("..")`.
pub fn debug_opt(o: &Option<String>) -> (r: String)
    ensures
        r@ == debug_option(opt_text(*o)),
{
    match o {
        Some(s) => {
            let mut r = String::from_str("Some(");
            let d = debug_str(s.as_str());
            r.append(d.as_str());
            r.append(")");
            r
        },
        None => String::from_str("None"),
    }
}

/// The characters of an optional string.
pub open spec fn opt_text(o: Option<String>) -> Option<Seq<char>> {
    match o {
        Some(s) => Some(s@),
        None => None,
    }
}

/// Whether `part` stands in `whole`, unchanged and in one piece.
pub open spec fn holds(whole: Seq<char>, part: Seq<char>) -> bool {
    exists|at: int| stands_at(whole, part, at)
}

/// Whether `part` stands in `whole` from the place `at` on.
pub open spec fn stands_at(whole: Seq<char>, part: Seq<char>, at: int) -> bool {
    0 <= at && at + part.len() <= whole.len() && whole.subrange(at, at + part.len()) == part
}

/// A text put together from three pieces holds the middle piece.
pub proof fn lemma_holds_middle(before: Seq<char>, part: Seq<char>, after: Seq<char>)
    ensures
        holds(before + part + after, part),
{
    let whole = before + part + after;
    let at = before.len() as int;
    assert(whole.subrange(at, at + part.len()) =~= part);
    assert(stands_at(whole, part, at));
}

} // verus!
