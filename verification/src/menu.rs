//! The events of the application around a transfer, and the numbers under
//! which they travel through an event queue that carries integers.

use vstd::prelude::*;
use crate::tag::TagSize;

verus! {

/// Row of the menu that opens the file browser.
pub const OPEN_IMAGE_ROW: u32 = 1;

/// Row of the menu that starts the write.
pub const WRITE_TAG_ROW: u32 = 2;

/// What the application can be asked to do.
#[derive(Clone, Copy, Debug, PartialEq, Eq, Structural)]
pub enum AppEvent {
    /// Write to panels of this size from now on.
    SetTagSize(TagSize),
    /// Let the user pick an image file.
    OpenImage,
    /// Write the picked image to a tag.
    WriteTag,
    /// Poll once more for a tag.
    WaitForTag,
}

impl AppEvent {
    pub open spec fn spec_to_int(self) -> u32 {
        match self {
            AppEvent::OpenImage => 1,
            AppEvent::WriteTag => 2,
            AppEvent::WaitForTag => 3,
            AppEvent::SetTagSize(size) => (4 + size.spec_index()) as u32,
        }
    }

    /// The number under which this event is queued.
    #[verifier::when_used_as_spec(spec_to_int)]
    pub fn to_int(self) -> (r: u32)
        ensures
            r == self.spec_to_int(),
            1 <= r <= 6,
    {
        match self {
            AppEvent::OpenImage => 1,
            AppEvent::WriteTag => 2,
            AppEvent::WaitForTag => 3,
            AppEvent::SetTagSize(TagSize::TwoNine) => 4,
            AppEvent::SetTagSize(TagSize::FourTwo) => 5,
            AppEvent::SetTagSize(TagSize::SevenFive) => 6,
        }
    }

    /// The event queued under `n`, if there is one.
    pub fn from_int(n: u32) -> (r: Option<AppEvent>)
        ensures
            r is Some <==> 1 <= n <= 6,
            r matches Some(event) ==> event.spec_to_int() == n,
    {
        if n == 1 {
            Some(AppEvent::OpenImage)
        } else if n == 2 {
            Some(AppEvent::WriteTag)
        } else if n == 3 {
            Some(AppEvent::WaitForTag)
        } else if n == 4 {
            Some(AppEvent::SetTagSize(TagSize::TwoNine))
        } else if n == 5 {
            Some(AppEvent::SetTagSize(TagSize::FourTwo))
        } else if n == 6 {
            Some(AppEvent::SetTagSize(TagSize::SevenFive))
        } else {
            None
        }
    }

    /// The event behind the menu row `row`: the rows that open an image and
    /// start the write have one, the others have none.
    pub fn from_menu_row(row: u32) -> (r: Option<AppEvent>)
        ensures
            r == if row == OPEN_IMAGE_ROW {
                Some(AppEvent::OpenImage)
            } else if row == WRITE_TAG_ROW {
                Some(AppEvent::WriteTag)
            } else {
                None
            },
    {
        if row == OPEN_IMAGE_ROW {
            Some(AppEvent::OpenImage)
        } else if row == WRITE_TAG_ROW {
            Some(AppEvent::WriteTag)
        } else {
            None
        }
    }

    /// The event behind position `index` of the size selector.
    pub fn from_size_index(index: u8) -> (r: Option<AppEvent>)
        ensures
            r is Some <==> index < 3,
            r matches Some(event) ==> event matches AppEvent::SetTagSize(size)
                && size.spec_index() == index,
    {
        match TagSize::from_index(index) {
            Some(size) => Some(AppEvent::SetTagSize(size)),
            None => None,
        }
    }

    /// Different events are queued under different numbers, so the number
    /// tells the event.
    pub proof fn lemma_numbers_tell_events(self, other: AppEvent)
        ensures
            self.spec_to_int() == other.spec_to_int() <==> self == other,
    {
    }
}

} // verus!
