use vstd::prelude::*;

verus! {

/// A screenshot recorded in the history.
#[derive(Clone, Debug)]
pub struct Screenshot {
    pub id: i32,
    pub path: Option<String>,
    pub time: String,
    pub url: Option<String>,
}

/// How many screenshots the history fetches at a time.
pub const FETCH_COUNT: i64 = 15;

/// The index of the last screenshot fetched so far, 0 when there is none.
pub open spec fn last_fetched_index(fetched: nat) -> int {
    if fetched > 0 {
        fetched - 1
    } else {
        0
    }
}

/// Where the next batch of the history starts, if the item at `position` asks for one:
/// when it lies past the last fetched screenshot, or when at most one was fetched.
pub fn fetch_start(fetched: usize, position: u32) -> (start: Option<i64>)
    requires
        fetched <= i64::MAX,
    ensures
        start == if position > last_fetched_index(fetched as nat) || last_fetched_index(
            fetched as nat,
        ) == 0 {
            Some(last_fetched_index(fetched as nat) as i64)
        } else {
            None
        },
{
    let last = if fetched > 0 {
        fetched - 1
    } else {
        0
    };
    if position as usize > last || last == 0 {
        Some(last as i64)
    } else {
        None
    }
}

} // verus!
