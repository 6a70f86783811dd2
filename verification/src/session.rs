//! The transfer as a state machine.
//!
//! A [`Session`] owns the decisions of one write and performs none of its
//! I/O. Its owner hands it an [`Event`], the session moves to its next
//! [`Phase`] and answers with a [`Reaction`]: a report to show, if any, and
//! the one [`Action`] to perform next. The outcome of that action comes back
//! as the next event.
//!
//! What the session does is written down once, as the function [`next`] on
//! plain values. [`Session::step`] is proved to compute it.

use vstd::prelude::*;
use crate::radio::{
    acknowledged, committed, compatible, is_acknowledged, is_committed, is_compatible, same_bytes,
    DETECT_BACKOFF, EXCHANGE_TIMEOUT, POLL_ATTEMPTS, POLL_DELAY,
};
use crate::status::{ErrorKind, Status};
use crate::tag::{TagSize, HEADER_LEN, SETUP_LEN};

verus! {

/// Where a transfer stands.
#[derive(Clone, Copy, Debug, PartialEq, Eq)]
pub enum Phase {
    /// Nothing has been asked for yet.
    Idle,
    /// Validating: the image file is being opened.
    Opening,
    /// Validating: the header of the image is being read.
    ReadingHeader,
    /// Awaiting the device: the transceiver is being asked whether it is
    /// free.
    CheckingBusy,
    /// Awaiting the device: a discovery poll is in flight. `left` is the
    /// number of polls that may still follow it, where that is limited.
    Detecting { left: Option<u32> },
    /// Awaiting the device: the transceiver rests between two polls.
    Resting { left: Option<u32> },
    /// Setup: frame `index` of the setup sequence is in flight.
    Setup { index: usize },
    /// Streaming: chunk `index`, counted from one, is being read.
    ReadingChunk { index: usize },
    /// Streaming: the frame of chunk `index` is in flight.
    SendingChunk { index: usize },
    /// Finalizing: the power-on frame is in flight.
    PoweringOn,
    /// Finalizing: the refresh frame is in flight.
    Refreshing,
    /// Completing: completion poll number `attempt`, counted from one, is in
    /// flight.
    Polling { attempt: u32 },
    /// Completing: the pause after poll number `attempt`.
    Pausing { attempt: u32 },
    /// Powering down: the power-off frame is in flight.
    PoweringOff,
    /// The image is on the panel.
    Done,
    /// The transfer has ended with an error.
    Failed(ErrorKind),
}

impl Phase {
    /// Whether the transfer is over.
    pub open spec fn is_terminal(&self) -> bool {
        self is Done || self is Failed
    }
}

/// What the owner of a session reports to it.
#[derive(Clone, Debug, PartialEq, Eq)]
pub enum Event {
    /// A write has been requested.
    Start,
    /// The image file was opened, or could not be.
    Opened { ok: bool },
    /// The bytes the source gave for the last read; fewer than were asked
    /// for where the source ended first.
    Data { bytes: Vec<u8> },
    /// The source failed on the last read.
    ReadFailed,
    /// Whether the transceiver is engaged in another exchange.
    Busy { busy: bool },
    /// The outcome of a discovery poll: whether a device answered, and the
    /// identity it gave.
    Detected { found: bool, uid: Vec<u8> },
    /// The outcome of sending a frame: whether an answer arrived, its bytes
    /// and its length in bits.
    Response { success: bool, data: Vec<u8>, bits: u16 },
    /// The pause asked for is over.
    Elapsed,
    /// The owner gives the transfer up, or tears a finished one down.
    Abandon,
}

/// An [`Event`] as a plain value.
pub enum EventView {
    Start,
    Opened { ok: bool },
    Data { bytes: Seq<u8> },
    ReadFailed,
    Busy { busy: bool },
    Detected { found: bool, uid: Seq<u8> },
    Response { success: bool, data: Seq<u8>, bits: u16 },
    Elapsed,
    Abandon,
}

impl View for Event {
    type V = EventView;

    open spec fn view(&self) -> EventView {
        match self {
            Event::Start => EventView::Start,
            Event::Opened { ok } => EventView::Opened { ok: *ok },
            Event::Data { bytes } => EventView::Data { bytes: bytes@ },
            Event::ReadFailed => EventView::ReadFailed,
            Event::Busy { busy } => EventView::Busy { busy: *busy },
            Event::Detected { found, uid } => EventView::Detected { found: *found, uid: uid@ },
            Event::Response { success, data, bits } => EventView::Response {
                success: *success,
                data: data@,
                bits: *bits,
            },
            Event::Elapsed => EventView::Elapsed,
            Event::Abandon => EventView::Abandon,
        }
    }
}

/// What the owner of a session is asked to do next.
#[derive(Clone, Debug, PartialEq, Eq)]
pub enum Action {
    /// Nothing: the event was not awaited, or the transfer is over.
    Nothing,
    /// Open the image file and report `Opened`.
    Open,
    /// Read `len` bytes of the image, which start at `offset`, and report
    /// `Data` or `ReadFailed`.
    Read { offset: usize, len: usize },
    /// Ask the transceiver whether it is engaged and report `Busy`.
    QueryBusy,
    /// Wake the transceiver, poll for a device for up to `timeout` and
    /// report `Detected`.
    Detect { timeout: u32 },
    /// Put the transceiver into low power, wait `delay` and report
    /// `Elapsed`.
    Rest { delay: u32 },
    /// Send `frame`, wait up to `timeout` for the answer and report
    /// `Response`.
    Transmit { frame: Vec<u8>, timeout: u32 },
    /// Wait `delay` and report `Elapsed`.
    Delay { delay: u32 },
    /// Put the transceiver into low power; the transfer is over.
    Release,
}

/// An [`Action`] as a plain value.
pub enum ActionView {
    Nothing,
    Open,
    Read { offset: usize, len: usize },
    QueryBusy,
    Detect { timeout: u32 },
    Rest { delay: u32 },
    Transmit { frame: Seq<u8>, timeout: u32 },
    Delay { delay: u32 },
    Release,
}

impl View for Action {
    type V = ActionView;

    open spec fn view(&self) -> ActionView {
        match self {
            Action::Nothing => ActionView::Nothing,
            Action::Open => ActionView::Open,
            Action::Read { offset, len } => ActionView::Read { offset: *offset, len: *len },
            Action::QueryBusy => ActionView::QueryBusy,
            Action::Detect { timeout } => ActionView::Detect { timeout: *timeout },
            Action::Rest { delay } => ActionView::Rest { delay: *delay },
            Action::Transmit { frame, timeout } => ActionView::Transmit {
                frame: frame@,
                timeout: *timeout,
            },
            Action::Delay { delay } => ActionView::Delay { delay: *delay },
            Action::Release => ActionView::Release,
        }
    }
}

/// The answer of a session to one event: the report to show before
/// anything else, if there is one, and the action to perform.
#[derive(Clone, Debug, PartialEq, Eq)]
pub struct Reaction {
    pub status: Option<Status>,
    pub action: Action,
}

/// A [`Reaction`] as a plain value.
pub struct ReactionView {
    pub status: Option<Status>,
    pub action: ActionView,
}

impl View for Reaction {
    type V = ReactionView;

    open spec fn view(&self) -> ReactionView {
        ReactionView { status: self.status, action: self.action@ }
    }
}

/// Everything a session holds: the panel it writes to, the number of
/// discovery polls it may make (`None` for no limit) and its phase.
pub struct State {
    pub profile: TagSize,
    pub detect_limit: Option<u32>,
    pub phase: Phase,
}

/// The state `s` moved to `phase`.
pub open spec fn at(s: State, phase: Phase) -> State {
    State { profile: s.profile, detect_limit: s.detect_limit, phase }
}

/// The session moves to `phase`, shows `status` and asks for `action`.
pub open spec fn advance(s: State, phase: Phase, status: Option<Status>, action: ActionView) -> (
    State,
    ReactionView,
) {
    (at(s, phase), ReactionView { status, action })
}

/// The session stays as it is and asks for nothing.
pub open spec fn ignore(s: State) -> (State, ReactionView) {
    (s, ReactionView { status: None, action: ActionView::Nothing })
}

/// The transfer ends with the error `kind`: the error is shown and the
/// transceiver is released.
pub open spec fn fail(s: State, kind: ErrorKind) -> (State, ReactionView) {
    advance(s, Phase::Failed(kind), Some(Status::Failed(kind)), ActionView::Release)
}

/// One poll fewer: what is left of a limit once another poll starts.
pub open spec fn one_less(left: Option<u32>) -> Option<u32> {
    match left {
        Some(n) => if n > 0 {
            Some((n - 1) as u32)
        } else {
            Some(0u32)
        },
        None => None,
    }
}

/// Offset in the image of chunk `index`, counted from one.
pub open spec fn chunk_offset(profile: TagSize, index: int) -> int {
    HEADER_LEN + (index - 1) * profile.spec_chunk_size()
}

/// The request to send `frame` and wait for its answer.
pub open spec fn transmit(frame: Seq<u8>) -> ActionView {
    ActionView::Transmit { frame, timeout: EXCHANGE_TIMEOUT }
}

/// The request to read chunk `index`, counted from one.
pub open spec fn read_chunk(profile: TagSize, index: int) -> ActionView {
    ActionView::Read {
        offset: chunk_offset(profile, index) as usize,
        len: profile.spec_chunk_size() as usize,
    }
}

/// Idle: a request to write starts the validation of the image.
pub open spec fn after_idle(s: State, e: EventView) -> (State, ReactionView) {
    match e {
        EventView::Start => advance(s, Phase::Opening, None, ActionView::Open),
        _ => ignore(s),
    }
}

/// Opening: an image that cannot be opened ends the transfer; of one that
/// can, the header is read.
pub open spec fn after_opening(s: State, e: EventView) -> (State, ReactionView) {
    match e {
        EventView::Opened { ok } => if ok {
            advance(
                s,
                Phase::ReadingHeader,
                None,
                ActionView::Read { offset: 0, len: HEADER_LEN },
            )
        } else {
            fail(s, ErrorKind::Open)
        },
        _ => ignore(s),
    }
}

/// Reading the header: a read that failed or came short is a read error, a
/// header other than the profile's a format error. Neither touches the
/// transceiver. After the right header the transceiver is asked whether it
/// is free.
pub open spec fn after_header(s: State, e: EventView) -> (State, ReactionView) {
    match e {
        EventView::Data { bytes } => if bytes.len() != HEADER_LEN {
            fail(s, ErrorKind::Read)
        } else if bytes != s.profile.spec_header() {
            fail(s, ErrorKind::Format)
        } else {
            advance(s, Phase::CheckingBusy, None, ActionView::QueryBusy)
        },
        EventView::ReadFailed => fail(s, ErrorKind::Read),
        _ => ignore(s),
    }
}

/// Checking the transceiver: an engaged one ends the transfer before any
/// poll; a free one is polled, unless no poll is allowed at all.
pub open spec fn after_busy(s: State, e: EventView) -> (State, ReactionView) {
    match e {
        EventView::Busy { busy } => if busy {
            fail(s, ErrorKind::Busy)
        } else if s.detect_limit == Some(0u32) {
            fail(s, ErrorKind::NotFound)
        } else {
            advance(
                s,
                Phase::Detecting { left: one_less(s.detect_limit) },
                Some(Status::WaitingForTag),
                ActionView::Detect { timeout: EXCHANGE_TIMEOUT },
            )
        },
        _ => ignore(s),
    }
}

/// Detecting: a compatible device starts the setup sequence. No device, or
/// another device, means a rest and one more poll, until none is left.
pub open spec fn after_detect(s: State, left: Option<u32>, e: EventView) -> (State, ReactionView) {
    match e {
        EventView::Detected { found, uid } => if found && compatible(uid) {
            advance(
                s,
                Phase::Setup { index: 0 },
                Some(Status::SettingUp),
                transmit(s.profile.spec_setup()[0]),
            )
        } else if left == Some(0u32) {
            fail(s, ErrorKind::NotFound)
        } else {
            advance(s, Phase::Resting { left }, None, ActionView::Rest { delay: DETECT_BACKOFF })
        },
        _ => ignore(s),
    }
}

/// Resting: when the rest is over the next poll starts.
pub open spec fn after_rest(s: State, left: Option<u32>, e: EventView) -> (State, ReactionView) {
    match e {
        EventView::Elapsed => advance(
            s,
            Phase::Detecting { left: one_less(left) },
            None,
            ActionView::Detect { timeout: EXCHANGE_TIMEOUT },
        ),
        _ => ignore(s),
    }
}

/// Setup: every frame must be acknowledged. After the last one the first
/// chunk is read.
pub open spec fn after_setup(s: State, index: usize, e: EventView) -> (State, ReactionView) {
    match e {
        EventView::Response { success, data, bits } => if !acknowledged(success, data, bits) {
            fail(s, ErrorKind::Transmit)
        } else if index + 1 < SETUP_LEN {
            advance(
                s,
                Phase::Setup { index: (index + 1) as usize },
                None,
                transmit(s.profile.spec_setup()[index + 1]),
            )
        } else {
            advance(s, Phase::ReadingChunk { index: 1 }, None, read_chunk(s.profile, 1))
        },
        _ => ignore(s),
    }
}

/// Reading a chunk: a read that failed or came short is a read error, and
/// nothing more is sent. A whole chunk is sent with every bit flipped.
pub open spec fn after_chunk_read(s: State, index: usize, e: EventView) -> (State, ReactionView) {
    match e {
        EventView::Data { bytes } => if bytes.len() != s.profile.spec_chunk_size() {
            fail(s, ErrorKind::Read)
        } else {
            advance(
                s,
                Phase::SendingChunk { index },
                None,
                transmit(s.profile.spec_data_frame(bytes)),
            )
        },
        EventView::ReadFailed => fail(s, ErrorKind::Read),
        _ => ignore(s),
    }
}

/// Sending a chunk: the frame must be acknowledged. The progress is shown,
/// and the next chunk is read or, after the last one, the panel is powered
/// on.
pub open spec fn after_chunk_sent(s: State, index: usize, e: EventView) -> (State, ReactionView) {
    match e {
        EventView::Response { success, data, bits } => if !acknowledged(success, data, bits) {
            fail(s, ErrorKind::Transmit)
        } else if index < s.profile.spec_loops() {
            advance(
                s,
                Phase::ReadingChunk { index: (index + 1) as usize },
                Some(Status::Chunk { index, total: s.profile.spec_loops() }),
                read_chunk(s.profile, index + 1),
            )
        } else {
            advance(
                s,
                Phase::PoweringOn,
                Some(Status::Chunk { index, total: s.profile.spec_loops() }),
                transmit(s.profile.spec_power_on()),
            )
        },
        _ => ignore(s),
    }
}

/// Powering on: once acknowledged, the refresh is asked for.
pub open spec fn after_power_on(s: State, e: EventView) -> (State, ReactionView) {
    match e {
        EventView::Response { success, data, bits } => if acknowledged(success, data, bits) {
            advance(s, Phase::Refreshing, None, transmit(s.profile.spec_refresh()))
        } else {
            fail(s, ErrorKind::Transmit)
        },
        _ => ignore(s),
    }
}

/// Refreshing: once acknowledged, the first completion poll is sent.
pub open spec fn after_refresh(s: State, e: EventView) -> (State, ReactionView) {
    match e {
        EventView::Response { success, data, bits } => if acknowledged(success, data, bits) {
            advance(
                s,
                Phase::Polling { attempt: 1 },
                Some(Status::Finishing),
                transmit(s.profile.spec_wait()),
            )
        } else {
            fail(s, ErrorKind::Transmit)
        },
        _ => ignore(s),
    }
}

/// Polling: no answer is a transmit error. The answer that reports the
/// image as committed powers the panel off. Any other answer means a pause
/// and one more poll, until the last poll allowed has been answered so.
pub open spec fn after_poll(s: State, attempt: u32, e: EventView) -> (State, ReactionView) {
    match e {
        EventView::Response { success, data, bits } => if !success {
            fail(s, ErrorKind::Transmit)
        } else if committed(success, data, bits) {
            advance(s, Phase::PoweringOff, Some(Status::Done), transmit(s.profile.spec_power_off()))
        } else if attempt >= POLL_ATTEMPTS {
            fail(s, ErrorKind::Timeout)
        } else {
            advance(s, Phase::Pausing { attempt }, None, ActionView::Delay { delay: POLL_DELAY })
        },
        _ => ignore(s),
    }
}

/// Pausing: when the pause is over the next poll is sent.
pub open spec fn after_pause(s: State, attempt: u32, e: EventView) -> (State, ReactionView) {
    match e {
        EventView::Elapsed => advance(
            s,
            Phase::Polling { attempt: (attempt + 1) as u32 },
            None,
            transmit(s.profile.spec_wait()),
        ),
        _ => ignore(s),
    }
}

/// Powering off: once acknowledged, the transfer is done and the
/// transceiver is released.
pub open spec fn after_power_off(s: State, e: EventView) -> (State, ReactionView) {
    match e {
        EventView::Response { success, data, bits } => if acknowledged(success, data, bits) {
            advance(s, Phase::Done, None, ActionView::Release)
        } else {
            fail(s, ErrorKind::Transmit)
        },
        _ => ignore(s),
    }
}

/// What a session in state `s` does on the event `e`: the state it moves
/// to and its reaction.
///
/// Giving up comes first: it ends a running transfer, and on a finished
/// one it only releases the transceiver once more. A finished transfer
/// ignores everything else, and a running one ignores what its phase does
/// not wait for.
pub open spec fn next(s: State, e: EventView) -> (State, ReactionView) {
    if e is Abandon {
        if s.phase.is_terminal() {
            (s, ReactionView { status: None, action: ActionView::Release })
        } else {
            fail(s, ErrorKind::Abandoned)
        }
    } else {
        match s.phase {
            Phase::Idle => after_idle(s, e),
            Phase::Opening => after_opening(s, e),
            Phase::ReadingHeader => after_header(s, e),
            Phase::CheckingBusy => after_busy(s, e),
            Phase::Detecting { left } => after_detect(s, left, e),
            Phase::Resting { left } => after_rest(s, left, e),
            Phase::Setup { index } => after_setup(s, index, e),
            Phase::ReadingChunk { index } => after_chunk_read(s, index, e),
            Phase::SendingChunk { index } => after_chunk_sent(s, index, e),
            Phase::PoweringOn => after_power_on(s, e),
            Phase::Refreshing => after_refresh(s, e),
            Phase::Polling { attempt } => after_poll(s, attempt, e),
            Phase::Pausing { attempt } => after_pause(s, attempt, e),
            Phase::PoweringOff => after_power_off(s, e),
            Phase::Done => ignore(s),
            Phase::Failed(_) => ignore(s),
        }
    }
}

/// The states a session can be in: every counter within its bounds.
pub open spec fn valid(s: State) -> bool {
    match s.phase {
        Phase::Detecting { left } => match s.detect_limit {
            Some(limit) => left matches Some(n) && n < limit,
            None => left is None,
        },
        Phase::Resting { left } => match s.detect_limit {
            Some(limit) => left matches Some(n) && 0 < n < limit,
            None => left is None,
        },
        Phase::Setup { index } => index < SETUP_LEN,
        Phase::ReadingChunk { index } => 1 <= index <= s.profile.spec_loops(),
        Phase::SendingChunk { index } => 1 <= index <= s.profile.spec_loops(),
        Phase::Polling { attempt } => 1 <= attempt <= POLL_ATTEMPTS,
        Phase::Pausing { attempt } => 1 <= attempt < POLL_ATTEMPTS,
        _ => true,
    }
}

/// One transfer of an image to a panel.
pub struct Session {
    profile: TagSize,
    detect_limit: Option<u32>,
    phase: Phase,
}

impl View for Session {
    type V = State;

    closed spec fn view(&self) -> State {
        State { profile: self.profile, detect_limit: self.detect_limit, phase: self.phase }
    }
}

impl Session {
    #[verifier::type_invariant]
    spec fn well_formed(self) -> bool {
        valid(self@)
    }

    /// A session that writes to the panel `profile` and has not started.
    /// `detect_limit` is the number of discovery polls it may make; `None`
    /// lets it poll until a device is met or the transfer is given up.
    pub fn new(profile: TagSize, detect_limit: Option<u32>) -> (r: Session)
        ensures
            r@ == (State { profile, detect_limit, phase: Phase::Idle }),
    {
        Session { profile, detect_limit, phase: Phase::Idle }
    }

    /// The panel this session writes to.
    pub fn profile(&self) -> (r: TagSize)
        ensures
            r == self@.profile,
    {
        self.profile
    }

    /// Where the transfer stands.
    pub fn phase(&self) -> (r: Phase)
        ensures
            r == self@.phase,
            valid(self@),
    {
        proof {
            use_type_invariant(self);
        }
        self.phase
    }

    /// Whether the transfer is over.
    pub fn is_over(&self) -> (r: bool)
        ensures
            r == self@.phase.is_terminal(),
    {
        match self.phase {
            Phase::Done => true,
            Phase::Failed(_) => true,
            _ => false,
        }
    }

    /// The error the transfer ended with, if it ended with one.
    pub fn error(&self) -> (r: Option<ErrorKind>)
        ensures
            r == match self@.phase {
                Phase::Failed(kind) => Some(kind),
                _ => None,
            },
    {
        match self.phase {
            Phase::Failed(kind) => Some(kind),
            _ => None,
        }
    }

    fn advance(&mut self, phase: Phase, status: Option<Status>, action: Action) -> (r: Reaction)
        requires
            valid(at(old(self)@, phase)),
        ensures
            (final(self)@, r@) == advance(old(self)@, phase, status, action@),
    {
        self.phase = phase;
        Reaction { status, action }
    }

    fn ignore(&self) -> (r: Reaction)
        ensures
            (self@, r@) == ignore(self@),
    {
        Reaction { status: None, action: Action::Nothing }
    }

    fn fail(&mut self, kind: ErrorKind) -> (r: Reaction)
        ensures
            (final(self)@, r@) == fail(old(self)@, kind),
    {
        self.advance(Phase::Failed(kind), Some(Status::Failed(kind)), Action::Release)
    }

    fn read_chunk(&self, index: usize) -> (r: Action)
        requires
            1 <= index <= self@.profile.spec_loops(),
        ensures
            r@ == read_chunk(self@.profile, index as int),
    {
        proof {
            self.profile.lemma_chunks_cover_raster();
        }
        let size: usize = self.profile.chunk_size() as usize;
        assert((index - 1) * size <= 400 * 120) by (nonlinear_arith)
            requires
                1 <= index <= 400,
                0 <= size <= 120,
        ;
        Action::Read { offset: HEADER_LEN + (index - 1) * size, len: size }
    }

    /// Hands the session the outcome of what it asked for last and returns
    /// what it asks for next.
    pub fn step(&mut self, event: Event) -> (r: Reaction)
        ensures
            (final(self)@, r@) == next(old(self)@, event@),
    {
        proof {
            use_type_invariant(&*self);
            self.profile.lemma_chunks_cover_raster();
        }
        let profile: TagSize = self.profile;
        let phase: Phase = self.phase;
        match event {
            Event::Abandon => {
                if self.is_over() {
                    Reaction { status: None, action: Action::Release }
                } else {
                    self.fail(ErrorKind::Abandoned)
                }
            },
            Event::Start => match phase {
                Phase::Idle => self.advance(Phase::Opening, None, Action::Open),
                _ => self.ignore(),
            },
            Event::Opened { ok } => match phase {
                Phase::Opening => {
                    if ok {
                        self.advance(
                            Phase::ReadingHeader,
                            None,
                            Action::Read { offset: 0, len: HEADER_LEN },
                        )
                    } else {
                        self.fail(ErrorKind::Open)
                    }
                },
                _ => self.ignore(),
            },
            Event::Data { bytes } => match phase {
                Phase::ReadingHeader => {
                    let header: Vec<u8> = profile.header();
                    if bytes.len() != HEADER_LEN {
                        self.fail(ErrorKind::Read)
                    } else if !same_bytes(bytes.as_slice(), header.as_slice()) {
                        self.fail(ErrorKind::Format)
                    } else {
                        self.advance(Phase::CheckingBusy, None, Action::QueryBusy)
                    }
                },
                Phase::ReadingChunk { index } => {
                    if bytes.len() != profile.chunk_size() as usize {
                        self.fail(ErrorKind::Read)
                    } else {
                        let frame: Vec<u8> = profile.data_frame(bytes.as_slice());
                        self.advance(
                            Phase::SendingChunk { index },
                            None,
                            Action::Transmit { frame, timeout: EXCHANGE_TIMEOUT },
                        )
                    }
                },
                _ => self.ignore(),
            },
            Event::ReadFailed => match phase {
                Phase::ReadingHeader => self.fail(ErrorKind::Read),
                Phase::ReadingChunk { index } => self.fail(ErrorKind::Read),
                _ => self.ignore(),
            },
            Event::Busy { busy } => match phase {
                Phase::CheckingBusy => {
                    if busy {
                        self.fail(ErrorKind::Busy)
                    } else {
                        match self.detect_limit {
                            Some(limit) => {
                                if limit == 0 {
                                    self.fail(ErrorKind::NotFound)
                                } else {
                                    self.advance(
                                        Phase::Detecting { left: Some(limit - 1) },
                                        Some(Status::WaitingForTag),
                                        Action::Detect { timeout: EXCHANGE_TIMEOUT },
                                    )
                                }
                            },
                            None => self.advance(
                                Phase::Detecting { left: None },
                                Some(Status::WaitingForTag),
                                Action::Detect { timeout: EXCHANGE_TIMEOUT },
                            ),
                        }
                    }
                },
                _ => self.ignore(),
            },
            Event::Detected { found, uid } => match phase {
                Phase::Detecting { left } => {
                    if found && is_compatible(uid.as_slice()) {
                        let frame: Vec<u8> = profile.setup_frame(0);
                        self.advance(
                            Phase::Setup { index: 0 },
                            Some(Status::SettingUp),
                            Action::Transmit { frame, timeout: EXCHANGE_TIMEOUT },
                        )
                    } else {
                        match left {
                            Some(n) => {
                                if n == 0 {
                                    self.fail(ErrorKind::NotFound)
                                } else {
                                    self.advance(
                                        Phase::Resting { left },
                                        None,
                                        Action::Rest { delay: DETECT_BACKOFF },
                                    )
                                }
                            },
                            None => self.advance(
                                Phase::Resting { left },
                                None,
                                Action::Rest { delay: DETECT_BACKOFF },
                            ),
                        }
                    }
                },
                _ => self.ignore(),
            },
            Event::Elapsed => match phase {
                Phase::Resting { left } => {
                    let fewer: Option<u32> = match left {
                        Some(n) => Some(n - 1),
                        None => None,
                    };
                    self.advance(
                        Phase::Detecting { left: fewer },
                        None,
                        Action::Detect { timeout: EXCHANGE_TIMEOUT },
                    )
                },
                Phase::Pausing { attempt } => {
                    let frame: Vec<u8> = profile.wait();
                    self.advance(
                        Phase::Polling { attempt: attempt + 1 },
                        None,
                        Action::Transmit { frame, timeout: EXCHANGE_TIMEOUT },
                    )
                },
                _ => self.ignore(),
            },
            Event::Response { success, data, bits } => {
                let accepted: bool = is_acknowledged(success, data.as_slice(), bits);
                match phase {
                    Phase::Setup { index } => {
                        if !accepted {
                            self.fail(ErrorKind::Transmit)
                        } else if index + 1 < SETUP_LEN {
                            let frame: Vec<u8> = profile.setup_frame(index + 1);
                            self.advance(
                                Phase::Setup { index: index + 1 },
                                None,
                                Action::Transmit { frame, timeout: EXCHANGE_TIMEOUT },
                            )
                        } else {
                            let action: Action = self.read_chunk(1);
                            self.advance(Phase::ReadingChunk { index: 1 }, None, action)
                        }
                    },
                    Phase::SendingChunk { index } => {
                        let total: usize = profile.loops();
                        if !accepted {
                            self.fail(ErrorKind::Transmit)
                        } else if index < total {
                            let action: Action = self.read_chunk(index + 1);
                            self.advance(
                                Phase::ReadingChunk { index: index + 1 },
                                Some(Status::Chunk { index, total }),
                                action,
                            )
                        } else {
                            let frame: Vec<u8> = profile.power_on();
                            self.advance(
                                Phase::PoweringOn,
                                Some(Status::Chunk { index, total }),
                                Action::Transmit { frame, timeout: EXCHANGE_TIMEOUT },
                            )
                        }
                    },
                    Phase::PoweringOn => {
                        if accepted {
                            let frame: Vec<u8> = profile.refresh();
                            self.advance(
                                Phase::Refreshing,
                                None,
                                Action::Transmit { frame, timeout: EXCHANGE_TIMEOUT },
                            )
                        } else {
                            self.fail(ErrorKind::Transmit)
                        }
                    },
                    Phase::Refreshing => {
                        if accepted {
                            let frame: Vec<u8> = profile.wait();
                            self.advance(
                                Phase::Polling { attempt: 1 },
                                Some(Status::Finishing),
                                Action::Transmit { frame, timeout: EXCHANGE_TIMEOUT },
                            )
                        } else {
                            self.fail(ErrorKind::Transmit)
                        }
                    },
                    Phase::Polling { attempt } => {
                        if !success {
                            self.fail(ErrorKind::Transmit)
                        } else if is_committed(success, data.as_slice(), bits) {
                            let frame: Vec<u8> = profile.power_off();
                            self.advance(
                                Phase::PoweringOff,
                                Some(Status::Done),
                                Action::Transmit { frame, timeout: EXCHANGE_TIMEOUT },
                            )
                        } else if attempt >= POLL_ATTEMPTS {
                            self.fail(ErrorKind::Timeout)
                        } else {
                            self.advance(
                                Phase::Pausing { attempt },
                                None,
                                Action::Delay { delay: POLL_DELAY },
                            )
                        }
                    },
                    Phase::PoweringOff => {
                        if accepted {
                            self.advance(Phase::Done, None, Action::Release)
                        } else {
                            self.fail(ErrorKind::Transmit)
                        }
                    },
                    _ => self.ignore(),
                }
            },
        }
    }
}

} // verus!
