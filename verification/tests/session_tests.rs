use waveshare_nfc::session::{Action, Event, Phase, Reaction, Session};
use waveshare_nfc::status::{ErrorKind, Status};
use waveshare_nfc::tag::TagSize;

const ALL_SIZES: [TagSize; 3] = [TagSize::TwoNine, TagSize::FourTwo, TagSize::SevenFive];

/// A scripted world for one transfer: an image, a transceiver and a tag.
struct World {
    image: Option<Vec<u8>>,
    busy: bool,
    /// Number of polls that find nothing before one finds the tag.
    misses: usize,
    uid: Vec<u8>,
    /// Number of the frame, counted from one, that gets `bad_answer`.
    bad_frame: Option<usize>,
    bad_answer: (bool, Vec<u8>, u16),
    /// Number of completion polls answered as pending before the commit.
    pending_polls: usize,
    pending_answer: (bool, Vec<u8>, u16),
}

/// What was asked of the world during one transfer.
struct Log {
    frames: Vec<Vec<u8>>,
    statuses: Vec<String>,
    reads: Vec<(usize, usize)>,
    opens: usize,
    busy_queries: usize,
    detects: usize,
    rests: usize,
    delays: usize,
    releases: usize,
    polls: usize,
}

fn good_image(size: TagSize) -> Vec<u8> {
    let mut image = size.header();
    let raster = size.loops() * size.chunk_size() as usize;
    for k in 0..raster {
        image.push((k % 251) as u8);
    }
    image
}

fn world(size: TagSize) -> World {
    World {
        image: Some(good_image(size)),
        busy: false,
        misses: 0,
        uid: b"WSDZ10m\x01\x02\x03".to_vec(),
        bad_frame: None,
        bad_answer: (false, vec![], 0),
        pending_polls: 0,
        pending_answer: (true, vec![0x01, 0x00], 16),
    }
}

fn drive(session: &mut Session, world: &World) -> Log {
    let mut log = Log {
        frames: vec![],
        statuses: vec![],
        reads: vec![],
        opens: 0,
        busy_queries: 0,
        detects: 0,
        rests: 0,
        delays: 0,
        releases: 0,
        polls: 0,
    };
    let mut event = Event::Start;
    let mut steps = 0usize;
    loop {
        steps += 1;
        assert!(steps < 100_000, "the transfer does not end");
        let Reaction { status, action } = session.step(event);
        if let Some(status) = status {
            log.statuses.push(status.text());
        }
        event = match action {
            Action::Nothing => break,
            Action::Release => {
                log.releases += 1;
                break;
            }
            Action::Open => {
                log.opens += 1;
                Event::Opened { ok: world.image.is_some() }
            }
            Action::Read { offset, len } => {
                log.reads.push((offset, len));
                let image = world.image.as_ref().unwrap();
                let start = offset.min(image.len());
                let end = (offset + len).min(image.len());
                Event::Data { bytes: image[start..end].to_vec() }
            }
            Action::QueryBusy => {
                log.busy_queries += 1;
                Event::Busy { busy: world.busy }
            }
            Action::Detect { timeout } => {
                assert_eq!(timeout, 300);
                log.detects += 1;
                if log.detects > world.misses {
                    Event::Detected { found: true, uid: world.uid.clone() }
                } else {
                    Event::Detected { found: false, uid: vec![] }
                }
            }
            Action::Rest { delay } => {
                assert_eq!(delay, 50);
                log.rests += 1;
                Event::Elapsed
            }
            Action::Delay { delay } => {
                assert_eq!(delay, 100);
                log.delays += 1;
                Event::Elapsed
            }
            Action::Transmit { frame, timeout } => {
                assert_eq!(timeout, 300);
                let is_poll = frame == vec![0xCD, 0x0A];
                log.frames.push(frame);
                let (success, data, bits) = if Some(log.frames.len()) == world.bad_frame {
                    world.bad_answer.clone()
                } else if is_poll {
                    log.polls += 1;
                    if log.polls <= world.pending_polls {
                        world.pending_answer.clone()
                    } else {
                        (true, vec![0xFF, 0x00], 16)
                    }
                } else {
                    (true, vec![0x00, 0x00], 16)
                };
                Event::Response { success, data, bits }
            }
        };
    }
    log
}

fn expected_frames(size: TagSize, image: &[u8], polls: usize) -> Vec<Vec<u8>> {
    let mut frames = size.setup();
    let n = size.chunk_size() as usize;
    for i in 0..size.loops() {
        let mut frame = vec![0xCD, 0x08, size.chunk_size()];
        for b in &image[11 + i * n..11 + (i + 1) * n] {
            frame.push(!*b);
        }
        frames.push(frame);
    }
    frames.push(vec![0xCD, 0x18]);
    frames.push(vec![0xCD, 0x09]);
    for _ in 0..polls {
        frames.push(vec![0xCD, 0x0A]);
    }
    frames.push(vec![0xCD, 0x04]);
    frames
}

#[test]
fn new_session_is_idle() {
    let session = Session::new(TagSize::FourTwo, None);
    assert_eq!(session.phase(), Phase::Idle);
    assert_eq!(session.profile(), TagSize::FourTwo);
    assert!(!session.is_over());
    assert_eq!(session.error(), None);
}

#[test]
fn whole_transfer_succeeds_for_every_profile() {
    for size in ALL_SIZES {
        let world = world(size);
        let mut session = Session::new(size, None);
        let log = drive(&mut session, &world);
        assert_eq!(session.phase(), Phase::Done);
        assert!(session.is_over());
        assert_eq!(session.error(), None);
        let image = world.image.as_ref().unwrap();
        assert_eq!(log.frames, expected_frames(size, image, 1));
        assert_eq!(log.frames.len(), 8 + size.loops() + 4);
        assert_eq!(log.opens, 1);
        assert_eq!(log.busy_queries, 1);
        assert_eq!(log.detects, 1);
        assert_eq!(log.rests, 0);
        assert_eq!(log.delays, 0);
        assert_eq!(log.releases, 1);
        assert_eq!(log.reads.len(), 1 + size.loops());
    }
}

#[test]
fn statuses_of_a_whole_transfer() {
    let size = TagSize::TwoNine;
    let mut session = Session::new(size, None);
    let log = drive(&mut session, &world(size));
    assert_eq!(log.statuses.len(), 2 + 296 + 2);
    assert_eq!(log.statuses[0], "waiting for tag");
    assert_eq!(log.statuses[1], "setting up");
    assert_eq!(log.statuses[2], "chunk 1/296");
    assert_eq!(log.statuses[13], "chunk 12/296");
    assert_eq!(log.statuses[297], "chunk 296/296");
    assert_eq!(log.statuses[298], "finishing");
    assert_eq!(log.statuses[299], "done!");
}

#[test]
fn reads_tile_the_image() {
    for size in ALL_SIZES {
        let mut session = Session::new(size, None);
        let log = drive(&mut session, &world(size));
        let n = size.chunk_size() as usize;
        assert_eq!(log.reads[0], (0, 11));
        let mut cursor = 11;
        for read in &log.reads[1..] {
            assert_eq!(*read, (cursor, n));
            cursor += n;
        }
        assert_eq!(cursor, 11 + size.loops() * n);
    }
}

#[test]
fn payload_on_the_wire_is_the_complement_of_the_image() {
    let size = TagSize::FourTwo;
    let world = world(size);
    let mut session = Session::new(size, None);
    let log = drive(&mut session, &world);
    let image = world.image.as_ref().unwrap();
    let mut received: Vec<u8> = vec![];
    for frame in &log.frames[8..8 + size.loops()] {
        assert_eq!(&frame[..3], &[0xCD, 0x08, 100]);
        for b in &frame[3..] {
            received.push(0xFF ^ *b);
        }
    }
    assert_eq!(&received[..], &image[11..]);
}

#[test]
fn open_failure_is_reported() {
    let mut world = world(TagSize::TwoNine);
    world.image = None;
    let mut session = Session::new(TagSize::TwoNine, None);
    let log = drive(&mut session, &world);
    assert_eq!(session.phase(), Phase::Failed(ErrorKind::Open));
    assert_eq!(session.error(), Some(ErrorKind::Open));
    assert_eq!(log.statuses, vec!["Can't open file".to_string()]);
    assert!(log.frames.is_empty());
    assert_eq!(log.busy_queries, 0);
    assert_eq!(log.detects, 0);
    assert_eq!(log.releases, 1);
}

#[test]
fn short_image_fails_where_the_read_comes_short() {
    for size in ALL_SIZES {
        let n = size.chunk_size() as usize;
        let full = good_image(size);
        // one byte short of the end of chunk `chunks_ok + 1`
        for chunks_ok in [0usize, 1, 2, size.loops() / 2, size.loops() - 1] {
            let mut world = world(size);
            world.image = Some(full[..11 + (chunks_ok + 1) * n - 1].to_vec());
            let mut session = Session::new(size, None);
            let log = drive(&mut session, &world);
            assert_eq!(session.phase(), Phase::Failed(ErrorKind::Read));
            assert_eq!(log.frames.len(), 8 + chunks_ok);
            assert_eq!(log.frames, expected_frames(size, &full, 0)[..8 + chunks_ok].to_vec());
            assert_eq!(log.reads.len(), 1 + chunks_ok + 1);
            assert_eq!(*log.reads.last().unwrap(), (11 + chunks_ok * n, n));
            assert_eq!(log.statuses.last().unwrap(), "Can't read file");
            assert_eq!(log.releases, 1);
        }
        // exactly on a chunk boundary: the next read gets nothing at all
        let mut world = world(size);
        world.image = Some(full[..11 + 3 * n].to_vec());
        let mut session = Session::new(size, None);
        let log = drive(&mut session, &world);
        assert_eq!(session.phase(), Phase::Failed(ErrorKind::Read));
        assert_eq!(log.frames.len(), 8 + 3);
    }
}

#[test]
fn short_header_is_a_read_error_before_any_radio_use() {
    for len in 0..11usize {
        let mut world = world(TagSize::TwoNine);
        world.image = Some(TagSize::TwoNine.header()[..len].to_vec());
        let mut session = Session::new(TagSize::TwoNine, None);
        let log = drive(&mut session, &world);
        assert_eq!(session.phase(), Phase::Failed(ErrorKind::Read));
        assert!(log.frames.is_empty());
        assert_eq!(log.busy_queries, 0);
        assert_eq!(log.detects, 0);
        assert_eq!(log.reads, vec![(0, 11)]);
    }
}

#[test]
fn source_failure_is_a_read_error() {
    let mut session = Session::new(TagSize::TwoNine, None);
    session.step(Event::Start);
    session.step(Event::Opened { ok: true });
    let r = session.step(Event::ReadFailed);
    assert_eq!(r.action, Action::Release);
    assert_eq!(r.status, Some(Status::Failed(ErrorKind::Read)));
    assert_eq!(session.phase(), Phase::Failed(ErrorKind::Read));
}

#[test]
fn any_wrong_header_byte_is_a_format_error_and_sends_nothing() {
    for size in ALL_SIZES {
        for k in 0..11usize {
            for flip in [0x01u8, 0x80, 0xFF] {
                let mut world = world(size);
                let mut image = good_image(size);
                image[k] ^= flip;
                world.image = Some(image);
                let mut session = Session::new(size, None);
                let log = drive(&mut session, &world);
                assert_eq!(session.phase(), Phase::Failed(ErrorKind::Format));
                assert_eq!(session.error(), Some(ErrorKind::Format));
                assert!(log.frames.is_empty());
                assert_eq!(log.detects, 0);
                assert_eq!(log.busy_queries, 0);
                assert_eq!(log.statuses, vec!["Bad file format".to_string()]);
                assert_eq!(log.releases, 1);
            }
        }
    }
}

#[test]
fn image_of_another_panel_is_a_format_error() {
    let mut world = world(TagSize::TwoNine);
    world.image = Some(good_image(TagSize::FourTwo));
    let mut session = Session::new(TagSize::TwoNine, None);
    let log = drive(&mut session, &world);
    assert_eq!(session.phase(), Phase::Failed(ErrorKind::Format));
    assert!(log.frames.is_empty());
}

#[test]
fn busy_transceiver_fails_without_polling() {
    let mut world = world(TagSize::SevenFive);
    world.busy = true;
    let mut session = Session::new(TagSize::SevenFive, None);
    let log = drive(&mut session, &world);
    assert_eq!(session.phase(), Phase::Failed(ErrorKind::Busy));
    assert_eq!(log.busy_queries, 1);
    assert_eq!(log.detects, 0);
    assert_eq!(log.rests, 0);
    assert!(log.frames.is_empty());
    assert_eq!(log.statuses, vec!["Can't start NFC".to_string()]);
    assert_eq!(log.releases, 1);
}

#[test]
fn discovery_retries_until_the_tag_answers() {
    let mut world = world(TagSize::TwoNine);
    world.misses = 5;
    let mut session = Session::new(TagSize::TwoNine, None);
    let log = drive(&mut session, &world);
    assert_eq!(session.phase(), Phase::Done);
    assert_eq!(log.detects, 6);
    assert_eq!(log.rests, 5);
    assert_eq!(log.statuses[0], "waiting for tag");
    assert_eq!(log.statuses[1], "setting up");
}

#[test]
fn incompatible_tag_is_not_yet_a_tag() {
    let mut session = Session::new(TagSize::TwoNine, None);
    session.step(Event::Start);
    session.step(Event::Opened { ok: true });
    session.step(Event::Data { bytes: TagSize::TwoNine.header() });
    let r = session.step(Event::Busy { busy: false });
    assert_eq!(r.action, Action::Detect { timeout: 300 });
    assert_eq!(r.status, Some(Status::WaitingForTag));
    let r = session.step(Event::Detected { found: true, uid: b"WSDZ10x".to_vec() });
    assert_eq!(r, Reaction { status: None, action: Action::Rest { delay: 50 } });
    assert_eq!(session.phase(), Phase::Resting { left: None });
    let r = session.step(Event::Elapsed);
    assert_eq!(r, Reaction { status: None, action: Action::Detect { timeout: 300 } });
    let r = session.step(Event::Detected { found: false, uid: b"WSDZ10m".to_vec() });
    assert_eq!(r.action, Action::Rest { delay: 50 });
    session.step(Event::Elapsed);
    let r = session.step(Event::Detected { found: true, uid: b"WSDZ10m".to_vec() });
    assert_eq!(r.status, Some(Status::SettingUp));
    assert_eq!(r.action, Action::Transmit { frame: vec![0xCD, 0x0D], timeout: 300 });
    assert_eq!(session.phase(), Phase::Setup { index: 0 });
}

#[test]
fn discovery_limit_ends_with_not_found() {
    for limit in 1..=4u32 {
        let mut world = world(TagSize::TwoNine);
        world.misses = 1000;
        let mut session = Session::new(TagSize::TwoNine, Some(limit));
        let log = drive(&mut session, &world);
        assert_eq!(session.phase(), Phase::Failed(ErrorKind::NotFound));
        assert_eq!(log.detects, limit as usize);
        assert_eq!(log.rests, limit as usize - 1);
        assert!(log.frames.is_empty());
        assert_eq!(log.statuses.last().unwrap(), "No tag found");
        assert_eq!(log.releases, 1);
    }
    let mut world = world(TagSize::TwoNine);
    world.misses = 3;
    let mut session = Session::new(TagSize::TwoNine, Some(4));
    let log = drive(&mut session, &world);
    assert_eq!(session.phase(), Phase::Done);
    assert_eq!(log.detects, 4);
}

#[test]
fn discovery_limit_of_zero_never_polls() {
    let mut session = Session::new(TagSize::TwoNine, Some(0));
    let log = drive(&mut session, &world(TagSize::TwoNine));
    assert_eq!(session.phase(), Phase::Failed(ErrorKind::NotFound));
    assert_eq!(log.detects, 0);
    assert_eq!(log.busy_queries, 1);
}

#[test]
fn unacknowledged_frame_aborts_without_retry() {
    let size = TagSize::TwoNine;
    let answers: Vec<(bool, Vec<u8>, u16)> = vec![
        (false, vec![0x00, 0x00], 16),
        (true, vec![0x00, 0x01], 16),
        (true, vec![0x01, 0x00], 16),
        (true, vec![0x00, 0x00], 8),
        (true, vec![0x00], 16),
        (true, vec![], 0),
    ];
    // a setup frame, a data frame, power-on, refresh and power-off
    for frame in [1usize, 3, 8, 9, 100, 8 + 296, 8 + 296 + 1, 8 + 296 + 2, 8 + 296 + 4] {
        for answer in &answers {
            let mut world = world(size);
            world.bad_frame = Some(frame);
            world.bad_answer = answer.clone();
            let mut session = Session::new(size, None);
            let log = drive(&mut session, &world);
            assert_eq!(session.phase(), Phase::Failed(ErrorKind::Transmit));
            assert_eq!(log.frames.len(), frame);
            assert_eq!(log.statuses.last().unwrap(), "Write failed");
            assert_eq!(log.releases, 1);
        }
    }
}

#[test]
fn commit_at_the_fiftieth_poll_succeeds() {
    let size = TagSize::TwoNine;
    let mut world = world(size);
    world.pending_polls = 49;
    let mut session = Session::new(size, None);
    let log = drive(&mut session, &world);
    assert_eq!(session.phase(), Phase::Done);
    assert_eq!(log.polls, 50);
    assert_eq!(log.delays, 49);
    let image = world.image.as_ref().unwrap();
    assert_eq!(log.frames, expected_frames(size, image, 50));
    assert_eq!(log.statuses.last().unwrap(), "done!");
}

#[test]
fn fifty_pending_polls_time_out_without_a_fifty_first() {
    let size = TagSize::TwoNine;
    for pending in [(true, vec![0x01u8, 0x00], 16u16), (true, vec![0x00, 0x00], 16), (true, vec![], 0)] {
        let mut world = world(size);
        world.pending_polls = 1000;
        world.pending_answer = pending;
        let mut session = Session::new(size, None);
        let log = drive(&mut session, &world);
        assert_eq!(session.phase(), Phase::Failed(ErrorKind::Timeout));
        assert_eq!(session.error(), Some(ErrorKind::Timeout));
        assert_eq!(log.polls, 50);
        assert_eq!(log.delays, 49);
        assert_eq!(log.frames.len(), 8 + 296 + 2 + 50);
        assert_eq!(log.statuses.last().unwrap(), "Tag timed out");
        assert_eq!(log.releases, 1);
        let r = session.step(Event::Elapsed);
        assert_eq!(r, Reaction { status: None, action: Action::Nothing });
        let r = session.step(Event::Response { success: true, data: vec![0xFF, 0x00], bits: 16 });
        assert_eq!(r, Reaction { status: None, action: Action::Nothing });
        assert_eq!(session.phase(), Phase::Failed(ErrorKind::Timeout));
    }
}

#[test]
fn unanswered_poll_is_a_transmit_error() {
    let size = TagSize::TwoNine;
    for bad_poll in [1usize, 2, 50] {
        let mut world = world(size);
        world.pending_polls = 1000;
        world.bad_frame = Some(8 + 296 + 2 + bad_poll);
        world.bad_answer = (false, vec![0xFF, 0x00], 16);
        let mut session = Session::new(size, None);
        let log = drive(&mut session, &world);
        assert_eq!(session.phase(), Phase::Failed(ErrorKind::Transmit));
        assert_eq!(log.frames.len(), 8 + 296 + 2 + bad_poll);
    }
}

#[test]
fn failed_power_off_is_the_final_status() {
    let size = TagSize::TwoNine;
    let mut world = world(size);
    world.bad_frame = Some(8 + 296 + 4);
    world.bad_answer = (true, vec![0x01, 0x00], 16);
    let mut session = Session::new(size, None);
    let log = drive(&mut session, &world);
    assert_eq!(session.phase(), Phase::Failed(ErrorKind::Transmit));
    let n = log.statuses.len();
    assert_eq!(log.statuses[n - 2], "done!");
    assert_eq!(log.statuses[n - 1], "Write failed");
    assert_eq!(log.releases, 1);
}

#[test]
fn teardown_is_safe_on_every_terminal_state() {
    let size = TagSize::TwoNine;
    let mut done = Session::new(size, None);
    drive(&mut done, &world(size));
    let mut busy_world = world(size);
    busy_world.busy = true;
    let mut failed = Session::new(size, None);
    drive(&mut failed, &busy_world);
    for (session, phase) in
        [(&mut done, Phase::Done), (&mut failed, Phase::Failed(ErrorKind::Busy))]
    {
        for _ in 0..3 {
            let r = session.step(Event::Abandon);
            assert_eq!(r, Reaction { status: None, action: Action::Release });
            assert_eq!(session.phase(), phase);
        }
    }
}

#[test]
fn abandon_ends_a_running_transfer() {
    let mut session = Session::new(TagSize::TwoNine, None);
    session.step(Event::Start);
    session.step(Event::Opened { ok: true });
    session.step(Event::Data { bytes: TagSize::TwoNine.header() });
    session.step(Event::Busy { busy: false });
    session.step(Event::Detected { found: false, uid: vec![] });
    assert_eq!(session.phase(), Phase::Resting { left: None });
    let r = session.step(Event::Abandon);
    assert_eq!(
        r,
        Reaction { status: Some(Status::Failed(ErrorKind::Abandoned)), action: Action::Release }
    );
    assert_eq!(session.phase(), Phase::Failed(ErrorKind::Abandoned));
    assert_eq!(r.status.unwrap().text(), "Cancelled");
    let r = session.step(Event::Elapsed);
    assert_eq!(r, Reaction { status: None, action: Action::Nothing });
    let r = session.step(Event::Abandon);
    assert_eq!(r, Reaction { status: None, action: Action::Release });
    assert_eq!(session.phase(), Phase::Failed(ErrorKind::Abandoned));
}

#[test]
fn second_start_is_rejected_while_active() {
    let mut session = Session::new(TagSize::TwoNine, None);
    let r = session.step(Event::Start);
    assert_eq!(r, Reaction { status: None, action: Action::Open });
    assert_eq!(session.phase(), Phase::Opening);
    let r = session.step(Event::Start);
    assert_eq!(r, Reaction { status: None, action: Action::Nothing });
    assert_eq!(session.phase(), Phase::Opening);
}

#[test]
fn events_that_are_not_awaited_are_ignored() {
    let mut session = Session::new(TagSize::TwoNine, None);
    let stray = [
        Event::Opened { ok: true },
        Event::Data { bytes: TagSize::TwoNine.header() },
        Event::ReadFailed,
        Event::Busy { busy: true },
        Event::Detected { found: true, uid: b"WSDZ10m".to_vec() },
        Event::Response { success: true, data: vec![0, 0], bits: 16 },
        Event::Elapsed,
    ];
    for event in stray {
        let r = session.step(event);
        assert_eq!(r, Reaction { status: None, action: Action::Nothing });
        assert_eq!(session.phase(), Phase::Idle);
    }
    session.step(Event::Start);
    let r = session.step(Event::Response { success: true, data: vec![0, 0], bits: 16 });
    assert_eq!(r, Reaction { status: None, action: Action::Nothing });
    assert_eq!(session.phase(), Phase::Opening);
}

#[test]
fn first_steps_in_order() {
    let size = TagSize::SevenFive;
    let mut session = Session::new(size, None);
    assert_eq!(session.step(Event::Start), Reaction { status: None, action: Action::Open });
    assert_eq!(
        session.step(Event::Opened { ok: true }),
        Reaction { status: None, action: Action::Read { offset: 0, len: 11 } }
    );
    assert_eq!(session.phase(), Phase::ReadingHeader);
    assert_eq!(
        session.step(Event::Data { bytes: size.header() }),
        Reaction { status: None, action: Action::QueryBusy }
    );
    assert_eq!(session.phase(), Phase::CheckingBusy);
    session.step(Event::Busy { busy: false });
    assert_eq!(session.phase(), Phase::Detecting { left: None });
    session.step(Event::Detected { found: true, uid: b"WSDZ10m".to_vec() });
    let ack = || Event::Response { success: true, data: vec![0, 0], bits: 16 };
    let setup = size.setup();
    for index in 1..8 {
        let r = session.step(ack());
        assert_eq!(r.status, None);
        assert_eq!(r.action, Action::Transmit { frame: setup[index].clone(), timeout: 300 });
        assert_eq!(session.phase(), Phase::Setup { index });
    }
    let r = session.step(ack());
    assert_eq!(r, Reaction { status: None, action: Action::Read { offset: 11, len: 120 } });
    assert_eq!(session.phase(), Phase::ReadingChunk { index: 1 });
    let r = session.step(Event::Data { bytes: vec![0x0F; 120] });
    let mut frame = vec![0xCD, 0x08, 120];
    frame.extend(vec![0xF0u8; 120]);
    assert_eq!(r, Reaction { status: None, action: Action::Transmit { frame, timeout: 300 } });
    assert_eq!(session.phase(), Phase::SendingChunk { index: 1 });
    let r = session.step(ack());
    assert_eq!(r.status, Some(Status::Chunk { index: 1, total: 400 }));
    assert_eq!(r.action, Action::Read { offset: 131, len: 120 });
}
