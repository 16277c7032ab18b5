//! Why a page could not be processed.
use vstd::prelude::*;

use crate::date::CalendarDate;

verus! {

/// Why a page could not be processed.
#[derive(Clone, Copy, Debug, PartialEq, Eq, Structural)]
pub enum ProcessError {
    /// The page does not open with a front matter block.
    NoFrontMatter,
    /// The front matter is not valid TOML.
    InvalidToml,
    /// The history reports an edit after today: the clock or the history is
    /// wrong, and no page can be judged against it.
    LastEditInFuture { last_edit: CalendarDate, today: CalendarDate },
    /// A page was to be written with nothing changed.
    NotChanged,
    /// The history query printed something other than a date.
    InvalidHistoryDate,
}

} // verus!
