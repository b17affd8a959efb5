use vstd::prelude::*;

verus! {

/// How many history entries are listed when the caller names no number.
pub const DEFAULT_HISTORY_COUNT: usize = 20;

/// The source recorded for a history entry: the one given, else `popup`.
pub fn history_source(source: Option<String>) -> (r: String)
    ensures
        r@ == match source {
            Some(s) => s@,
            None => "popup"@,
        },
{
    match source {
        Some(s) => s,
        None => String::from_str("popup"),
    }
}

/// How many history entries to list.
pub fn history_count(count: Option<usize>) -> (r: usize)
    ensures
        r == match count {
            Some(n) => n,
            None => DEFAULT_HISTORY_COUNT,
        },
{
    match count {
        Some(n) => n,
        None => DEFAULT_HISTORY_COUNT,
    }
}

} // verus!
