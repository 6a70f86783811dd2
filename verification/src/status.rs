//! What the user is told: the error kinds and the progress reports of a
//! transfer, with the text shown for each.

use vstd::prelude::*;
use vstd::string::*;
use crate::numeral::{decimal, push_decimal};

verus! {

/// Why a transfer ended without the image on the panel.
#[derive(Clone, Copy, Debug, PartialEq, Eq, Structural)]
pub enum ErrorKind {
    /// The transceiver was engaged in another exchange.
    Busy,
    /// The image file could not be opened.
    Open,
    /// The image file ended, or failed, before the bytes asked for were read.
    Read,
    /// The image file does not start with the header of the selected panel.
    Format,
    /// Discovery used up its polls without meeting a compatible device.
    NotFound,
    /// A frame was not acknowledged.
    Transmit,
    /// The device did not report the image as committed within the polls
    /// allowed for it.
    Timeout,
    /// The owner of the transfer gave it up.
    Abandoned,
}

impl ErrorKind {
    pub open spec fn spec_text(&self) -> Seq<char> {
        match self {
            ErrorKind::Busy => "Can't start NFC"@,
            ErrorKind::Open => "Can't open file"@,
            ErrorKind::Read => "Can't read file"@,
            ErrorKind::Format => "Bad file format"@,
            ErrorKind::NotFound => "No tag found"@,
            ErrorKind::Transmit => "Write failed"@,
            ErrorKind::Timeout => "Tag timed out"@,
            ErrorKind::Abandoned => "Cancelled"@,
        }
    }

    /// The text shown for this error.
    pub fn text(&self) -> (r: &'static str)
        ensures
            r@ == self.spec_text(),
    {
        match self {
            ErrorKind::Busy => "Can't start NFC",
            ErrorKind::Open => "Can't open file",
            ErrorKind::Read => "Can't read file",
            ErrorKind::Format => "Bad file format",
            ErrorKind::NotFound => "No tag found",
            ErrorKind::Transmit => "Write failed",
            ErrorKind::Timeout => "Tag timed out",
            ErrorKind::Abandoned => "Cancelled",
        }
    }
}

/// A progress report of a transfer.
#[derive(Clone, Copy, Debug, PartialEq, Eq, Structural)]
pub enum Status {
    /// Discovery is polling for a compatible device.
    WaitingForTag,
    /// The setup sequence is being sent.
    SettingUp,
    /// Chunk `index` of `total` has been acknowledged.
    Chunk { index: usize, total: usize },
    /// The raster is across and the panel is refreshing.
    Finishing,
    /// The device has committed the image.
    Done,
    /// The transfer has ended with an error.
    Failed(ErrorKind),
}

impl Status {
    pub open spec fn spec_text(&self) -> Seq<char> {
        match self {
            Status::WaitingForTag => "waiting for tag"@,
            Status::SettingUp => "setting up"@,
            Status::Chunk { index, total } => "chunk "@ + decimal(*index as nat) + "/"@ + decimal(
                *total as nat,
            ),
            Status::Finishing => "finishing"@,
            Status::Done => "done!"@,
            Status::Failed(kind) => kind.spec_text(),
        }
    }

    /// The text shown for this report.
    pub fn text(&self) -> (r: String)
        ensures
            r@ == self.spec_text(),
    {
        match self {
            Status::WaitingForTag => String::from_str("waiting for tag"),
            Status::SettingUp => String::from_str("setting up"),
            Status::Chunk { index, total } => {
                let mut r: String = String::from_str("chunk ");
                push_decimal(&mut r, *index);
                r.append("/");
                push_decimal(&mut r, *total);
                r
            },
            Status::Finishing => String::from_str("finishing"),
            Status::Done => String::from_str("done!"),
            Status::Failed(kind) => String::from_str(kind.text()),
        }
    }
}

} // verus!
