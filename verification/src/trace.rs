//! What holds of every run of a session.
//!
//! A run is a sequence of events handed to a session one after the other.
//! The theorems here are stated over [`next`], the function that
//! [`Session::step`](crate::session::Session::step) computes, so they hold
//! of every session whatever its owner reports to it.

use vstd::prelude::*;
use crate::radio::{committed, POLL_ATTEMPTS};
use crate::session::{
    at, chunk_offset, fail, next, transmit, valid, ActionView, EventView, Phase, ReactionView,
    State,
};
use crate::status::ErrorKind;
use crate::tag::{TagSize, HEADER_LEN};

verus! {

/// The state of a session that started in `s` and was handed `events`.
pub open spec fn state_after(s: State, events: Seq<EventView>) -> State
    decreases events.len(),
{
    if events.len() == 0 {
        s
    } else {
        next(state_after(s, events.drop_last()), events.last()).0
    }
}

/// The reaction of a session that started in `s` to event `i` of `events`.
pub open spec fn reaction_at(s: State, events: Seq<EventView>, i: int) -> ReactionView
    recommends
        0 <= i < events.len(),
{
    next(state_after(s, events.take(i)), events[i]).1
}

/// Whether an action makes the transceiver poll, send or rest, or makes the
/// session wait: everything but file access and the final release.
pub open spec fn uses_radio(action: ActionView) -> bool {
    action is Detect || action is Rest || action is Transmit || action is Delay
}

/// The phases in which the transceiver has not been used yet, and the
/// failures that can only come from them.
pub open spec fn radio_untouched(phase: Phase) -> bool {
    match phase {
        Phase::Idle => true,
        Phase::Opening => true,
        Phase::ReadingHeader => true,
        Phase::CheckingBusy => true,
        Phase::Failed(kind) => kind == ErrorKind::Open || kind == ErrorKind::Format || kind
            == ErrorKind::Busy,
        _ => false,
    }
}

/// A step never leaves the valid states.
pub proof fn lemma_step_keeps_valid(s: State, e: EventView)
    requires
        valid(s),
    ensures
        valid(next(s, e).0),
        next(s, e).0.profile == s.profile,
        next(s, e).0.detect_limit == s.detect_limit,
{
    s.profile.lemma_chunks_cover_raster();
}

/// A run never leaves the valid states: the counters of a session stay
/// within their bounds whatever it is handed. In particular no completion
/// poll is sent beyond the last one allowed.
pub proof fn lemma_run_keeps_valid(s: State, events: Seq<EventView>)
    requires
        valid(s),
    ensures
        valid(state_after(s, events)),
        state_after(s, events).profile == s.profile,
        state_after(s, events).detect_limit == s.detect_limit,
        state_after(s, events).phase matches Phase::Polling { attempt } ==> 1 <= attempt
            <= POLL_ATTEMPTS,
    decreases events.len(),
{
    if events.len() > 0 {
        lemma_run_keeps_valid(s, events.drop_last());
        lemma_step_keeps_valid(state_after(s, events.drop_last()), events.last());
    }
}

/// A finished transfer stays as it ended: whatever a session is handed
/// after `Done` or `Failed`, its state does not change, it shows nothing,
/// and the only thing it ever asks for is the release of the transceiver,
/// in answer to `Abandon`.
pub proof fn lemma_finished_stays_finished(s: State, events: Seq<EventView>)
    requires
        s.phase.is_terminal(),
    ensures
        state_after(s, events) == s,
        forall|i: int|
            0 <= i < events.len() ==> #[trigger] reaction_at(s, events, i) == (ReactionView {
                status: None,
                action: if events[i] is Abandon {
                    ActionView::Release
                } else {
                    ActionView::Nothing
                },
            }),
    decreases events.len(),
{
    if events.len() > 0 {
        lemma_finished_stays_finished(s, events.drop_last());
        assert forall|i: int| 0 <= i < events.len() implies #[trigger] reaction_at(s, events, i)
            == (ReactionView {
            status: None,
            action: if events[i] is Abandon {
                ActionView::Release
            } else {
                ActionView::Nothing
            },
        }) by {
            lemma_finished_stays_finished(s, events.take(i));
        }
    }
}

/// Tearing a session down is idempotent: `Abandon` always leaves a
/// finished session and asks for the release of the transceiver; handed to
/// a finished session it changes nothing, so the outcome of a transfer
/// survives any number of teardowns and none of them raises an error of
/// its own.
pub proof fn lemma_teardown_is_idempotent(s: State)
    ensures
        next(s, EventView::Abandon).0.phase.is_terminal(),
        next(s, EventView::Abandon).1.action == ActionView::Release,
        s.phase.is_terminal() ==> next(s, EventView::Abandon).0 == s,
        next(next(s, EventView::Abandon).0, EventView::Abandon).0 == next(s, EventView::Abandon).0,
        !s.phase.is_terminal() ==> next(s, EventView::Abandon).0.phase == Phase::Failed(
            ErrorKind::Abandoned,
        ),
{
}

/// A step that ends in a phase in which the transceiver is untouched
/// started in one, and did not use the transceiver.
pub proof fn lemma_untouched_step(s: State, e: EventView)
    requires
        radio_untouched(next(s, e).0.phase),
    ensures
        radio_untouched(s.phase),
        !uses_radio(next(s, e).1.action),
{
}

/// Nothing reaches the transceiver before the image has been validated and
/// the transceiver found free: a run that ends before discovery, or with
/// an open, format or busy error, has made no poll, sent no frame and
/// asked for no pause.
pub proof fn lemma_radio_untouched(s: State, events: Seq<EventView>)
    requires
        radio_untouched(state_after(s, events).phase),
    ensures
        radio_untouched(s.phase),
        forall|i: int|
            0 <= i < events.len() ==> !uses_radio(#[trigger] reaction_at(s, events, i).action),
    decreases events.len(),
{
    if events.len() > 0 {
        let before = events.drop_last();
        lemma_untouched_step(state_after(s, before), events.last());
        lemma_radio_untouched(s, before);
        assert forall|i: int| 0 <= i < events.len() implies !uses_radio(
            #[trigger] reaction_at(s, events, i).action,
        ) by {
            if i < events.len() - 1 {
                assert(before.take(i) == events.take(i));
                assert(before[i] == events[i]);
                assert(reaction_at(s, before, i) == reaction_at(s, events, i));
            } else {
                assert(events.take(i) == before);
            }
        }
    }
}

/// A header that differs from the profile's in any byte is a format error,
/// and a transfer that ends with a format error has sent no frame.
pub proof fn lemma_wrong_header_sends_nothing(s: State, bytes: Seq<u8>, events: Seq<EventView>)
    ensures
        s.phase == Phase::ReadingHeader && bytes.len() == HEADER_LEN && bytes
            != s.profile.spec_header() ==> next(s, EventView::Data { bytes }) == fail(
            s,
            ErrorKind::Format,
        ),
        state_after(s, events).phase == Phase::Failed(ErrorKind::Format) ==> forall|i: int|
            0 <= i < events.len() ==> !(#[trigger] reaction_at(s, events, i).action is Transmit),
{
    if state_after(s, events).phase == Phase::Failed(ErrorKind::Format) {
        lemma_radio_untouched(s, events);
    }
}

/// An engaged transceiver is a busy error at once, and a transfer that
/// ends with a busy error has made no discovery poll.
pub proof fn lemma_busy_fails_before_polling(s: State, events: Seq<EventView>)
    ensures
        s.phase == Phase::CheckingBusy ==> next(s, EventView::Busy { busy: true }) == fail(
            s,
            ErrorKind::Busy,
        ),
        state_after(s, events).phase == Phase::Failed(ErrorKind::Busy) ==> forall|i: int|
            0 <= i < events.len() ==> !(#[trigger] reaction_at(s, events, i).action is Detect),
{
    if state_after(s, events).phase == Phase::Failed(ErrorKind::Busy) {
        lemma_radio_untouched(s, events);
    }
}

/// The read a session waits for: the offset in the image and the number of
/// bytes, or `None` where it waits for something else.
pub open spec fn awaited_read(s: State) -> Option<(int, int)> {
    match s.phase {
        Phase::ReadingHeader => Some((0int, HEADER_LEN as int)),
        Phase::ReadingChunk { index } => Some(
            (chunk_offset(s.profile, index as int), s.profile.spec_chunk_size() as int),
        ),
        _ => None,
    }
}

/// What a source that holds `image` answers to a read of `len` bytes at
/// `offset`: those bytes, or as many of them as the image has.
pub open spec fn served(image: Seq<u8>, offset: int, len: int) -> EventView {
    let end = if offset + len <= image.len() {
        offset + len
    } else {
        image.len() as int
    };
    let start = if offset <= end {
        offset
    } else {
        end
    };
    EventView::Data { bytes: image.subrange(start, end) }
}

/// Every read a session asks for is the one it then waits for, and it
/// lies within a complete image.
pub proof fn lemma_read_is_awaited(s: State, e: EventView)
    requires
        valid(s),
    ensures
        next(s, e).1.action matches ActionView::Read { offset, len } ==> {
            &&& awaited_read(next(s, e).0) == Some((offset as int, len as int))
            &&& offset + len <= s.profile.spec_image_len()
        },
{
    s.profile.lemma_chunks_cover_raster();
    let c = s.profile.spec_chunk_size() as int;
    let n = s.profile.spec_loops() as int;
    match s.phase {
        Phase::Setup { index } => {
            assert((1 - 1) * c == 0);
            assert(n * c >= c) by (nonlinear_arith)
                requires
                    n >= 1,
                    c >= 0,
            ;
        },
        Phase::SendingChunk { index } => {
            let i = index as int;
            if i < n {
                assert(0 <= (i + 1 - 1) * c && (i + 1 - 1) * c + c <= n * c) by (nonlinear_arith)
                    requires
                        1 <= i < n,
                        c >= 0,
                ;
            }
        },
        _ => {},
    }
}

/// The reads of a transfer tile the image: the first chunk starts where
/// the header ends, every chunk starts where the one before it ends, and
/// the last chunk ends where a complete image ends.
pub proof fn lemma_reads_tile_image(profile: TagSize, index: int)
    ensures
        chunk_offset(profile, 1) == HEADER_LEN,
        chunk_offset(profile, index) + profile.spec_chunk_size() == chunk_offset(
            profile,
            index + 1,
        ),
        chunk_offset(profile, profile.spec_loops() + 1) == profile.spec_image_len(),
{
    profile.lemma_chunks_cover_raster();
    let c = profile.spec_chunk_size() as int;
    let n = profile.spec_loops() as int;
    assert((1 - 1) * c == 0);
    assert((index - 1) * c + c == (index + 1 - 1) * c) by (nonlinear_arith);
    assert(n * c >= 0) by (nonlinear_arith)
        requires
            n >= 0,
            c >= 0,
    ;
    assert((n + 1 - 1) * c == n * c);
}

/// A read fails exactly where the image ends. Handed what a source of
/// `image` gives for the read it waits for, a session ends with a read
/// error if the image stops short of the end of that read, and only then;
/// a chunk that is all there goes out as the data frame of exactly those
/// bytes.
pub proof fn lemma_read_fails_where_image_ends(s: State, image: Seq<u8>)
    requires
        valid(s),
        awaited_read(s) is Some,
    ensures
        ({
            let (offset, len) = awaited_read(s)->0;
            let (t, r) = next(s, served(image, offset, len));
            &&& image.len() < offset + len ==> (t, r) == fail(s, ErrorKind::Read)
            &&& image.len() >= offset + len ==> t.phase != Phase::Failed(ErrorKind::Read)
            &&& image.len() >= offset + len ==> (s.phase matches Phase::ReadingChunk { index }
                ==> r.action == transmit(
                s.profile.spec_data_frame(image.subrange(offset, offset + len)),
            ))
        }),
{
    s.profile.lemma_chunks_cover_raster();
    let (offset, len) = awaited_read(s)->0;
    if let Phase::ReadingChunk { index } = s.phase {
        let c = s.profile.spec_chunk_size() as int;
        let i = index as int;
        assert((i - 1) * c >= 0) by (nonlinear_arith)
            requires
                i >= 1,
                c >= 0,
        ;
    }
}

/// Whether `events` can come from a source that holds `image`: every
/// `Data` handed to a session that started in `s` and then waits for a read
/// holds what the image has of the bytes asked for.
pub open spec fn fed_from(s: State, events: Seq<EventView>, image: Seq<u8>) -> bool {
    forall|i: int|
        #![trigger events[i]]
        0 <= i < events.len() && events[i] is Data ==> (awaited_read(
            state_after(s, events.take(i)),
        ) matches Some((offset, len)) ==> events[i] == served(image, offset, len))
}

/// Number of leading bytes of the image that a session in state `s` has
/// been handed in full: what its phase can only be reached with.
pub open spec fn bytes_taken(s: State) -> int {
    match s.phase {
        Phase::Idle => 0,
        Phase::Opening => 0,
        Phase::ReadingHeader => 0,
        Phase::CheckingBusy => HEADER_LEN as int,
        Phase::Detecting { left } => HEADER_LEN as int,
        Phase::Resting { left } => HEADER_LEN as int,
        Phase::Setup { index } => HEADER_LEN as int,
        Phase::ReadingChunk { index } => chunk_offset(s.profile, index as int),
        Phase::SendingChunk { index } => chunk_offset(s.profile, index + 1),
        Phase::Failed(_) => 0,
        _ => s.profile.spec_image_len() as int,
    }
}

/// A session never gets ahead of its image: fed from a source that holds
/// `image`, it is only ever in a phase whose bytes the image has. So where
/// the image is shorter than a complete one, the transfer never reaches
/// the power-on of the panel, let alone `Done`: it has ended before, at the
/// read that came short or earlier.
pub proof fn lemma_short_image_never_completes(s: State, events: Seq<EventView>, image: Seq<u8>)
    requires
        valid(s),
        bytes_taken(s) <= image.len(),
        fed_from(s, events, image),
    ensures
        bytes_taken(state_after(s, events)) <= image.len(),
        image.len() < s.profile.spec_image_len() ==> {
            let phase = state_after(s, events).phase;
            &&& phase != Phase::Done
            &&& phase != Phase::PoweringOn
            &&& phase != Phase::Refreshing
            &&& phase != Phase::PoweringOff
            &&& !(phase is Polling)
            &&& !(phase is Pausing)
        },
    decreases events.len(),
{
    lemma_run_keeps_valid(s, events);
    if events.len() > 0 {
        let before = events.drop_last();
        let e = events.last();
        let last = events.len() - 1;
        assert forall|i: int|
            #![trigger before[i]]
            0 <= i < before.len() && before[i] is Data implies (awaited_read(
            state_after(s, before.take(i)),
        ) matches Some((offset, len)) ==> before[i] == served(image, offset, len)) by {
            assert(before.take(i) == events.take(i));
            assert(before[i] == events[i]);
        }
        lemma_short_image_never_completes(s, before, image);
        lemma_run_keeps_valid(s, before);
        let t = state_after(s, before);
        assert(events.take(last) == before);
        assert(e == events[last]);
        let profile = t.profile;
        let c = profile.spec_chunk_size() as int;
        profile.lemma_chunks_cover_raster();
        lemma_reads_tile_image(profile, 1);
        match t.phase {
            Phase::ReadingChunk { index } => {
                lemma_reads_tile_image(profile, index as int);
            },
            Phase::SendingChunk { index } => {
                lemma_reads_tile_image(profile, index as int);
                if index == profile.spec_loops() {
                    assert(chunk_offset(profile, index + 1) == profile.spec_image_len());
                }
            },
            _ => {},
        }
    }
}

/// An answer to a completion poll that neither fails nor reports the image
/// as committed.
pub open spec fn pending(e: EventView) -> bool {
    e matches EventView::Response { success, data, bits } && success && !committed(
        success,
        data,
        bits,
    )
}

/// What a session is handed over a series of completion polls: the answers
/// in `answers`, with the end of a pause between one and the next.
pub open spec fn poll_events(answers: Seq<EventView>) -> Seq<EventView>
    decreases answers.len(),
{
    if answers.len() == 0 {
        Seq::empty()
    } else if answers.len() == 1 {
        seq![answers[0]]
    } else {
        poll_events(answers.drop_last()).push(EventView::Elapsed).push(answers.last())
    }
}

/// The state after `events` and then `e`.
pub proof fn lemma_state_after_push(s: State, events: Seq<EventView>, e: EventView)
    ensures
        state_after(s, events.push(e)) == next(state_after(s, events), e).0,
{
    assert(events.push(e).drop_last() == events);
}

/// Completion polls are counted. A session that sent poll number `attempt`
/// and is answered by `answers`, all pending but possibly the last, meets
/// the last answer as poll number `attempt + answers.len() - 1`. So the
/// image is reported as committed at exactly the poll whose answer says so,
/// and the poll that is the last allowed, if its answer is pending too, ends
/// the transfer with a timeout instead of another poll.
pub proof fn lemma_polls_are_counted(s: State, answers: Seq<EventView>)
    requires
        answers.len() >= 1,
        s.phase matches Phase::Polling { attempt } && 1 <= attempt && attempt + answers.len() - 1
            <= POLL_ATTEMPTS,
        forall|i: int| 0 <= i < answers.len() - 1 ==> pending(#[trigger] answers[i]),
    ensures
        ({
            let number = (s.phase->Polling_attempt + answers.len() - 1) as u32;
            let t = state_after(s, poll_events(answers));
            &&& t == next(at(s, Phase::Polling { attempt: number }), answers.last()).0
            &&& pending(answers.last()) && number == POLL_ATTEMPTS ==> t.phase == Phase::Failed(
                ErrorKind::Timeout,
            )
            &&& pending(answers.last()) && number < POLL_ATTEMPTS ==> t.phase == (Phase::Pausing {
                attempt: number,
            })
            &&& (answers.last() matches EventView::Response { success, data, bits } && committed(
                success,
                data,
                bits,
            )) ==> t.phase == Phase::PoweringOff
        }),
    decreases answers.len(),
{
    let attempt = s.phase->Polling_attempt;
    if answers.len() == 1 {
        assert(poll_events(answers) == Seq::<EventView>::empty().push(answers[0]));
        lemma_state_after_push(s, Seq::empty(), answers[0]);
        assert(at(s, Phase::Polling { attempt }) == s);
    } else {
        let before = answers.drop_last();
        assert(forall|i: int| 0 <= i < before.len() ==> before[i] == answers[i]);
        assert(pending(answers[answers.len() - 2]));
        assert(before.last() == answers[answers.len() - 2]);
        lemma_polls_are_counted(s, before);
        let paused = state_after(s, poll_events(before));
        lemma_state_after_push(s, poll_events(before), EventView::Elapsed);
        lemma_state_after_push(
            s,
            poll_events(before).push(EventView::Elapsed),
            answers.last(),
        );
    }
}

} // verus!
