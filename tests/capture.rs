use win_mcp::vision::{
    buffer_len, init_failure, pack_rows, CaptureAction, CaptureError, CaptureEvent, CapturePhase,
    DesktopCapture, FrameInfo, InitStage, OutputDuplicator, ProtocolError, ACQUIRE_TIMEOUT_MS,
};

/// How the simulated display answers one acquire.
#[derive(Clone, Copy)]
enum Outcome {
    Fresh,
    Unchanged,
    Timeout,
    Lost,
    CastFails,
}

/// A simulated platform that counts the acquires and releases it performs.
struct Platform {
    acquires: u64,
    releases: u64,
    held: bool,
    row_pitch: usize,
}

fn mapped_image(width: u32, height: u32, row_pitch: usize) -> Vec<u8> {
    let mut data = vec![0xEEu8; row_pitch * height as usize];
    for y in 0..height as usize {
        for x in 0..(width as usize * 4) {
            data[y * row_pitch + x] = ((y * 7 + x) % 200) as u8;
        }
    }
    data
}

fn run_capture(
    session: &mut DesktopCapture,
    platform: &mut Platform,
    outcome: Outcome,
) -> Result<Vec<u8>, CaptureError> {
    let (width, height) = session.get_dimensions();
    let mut action = session.capture_frame(CaptureEvent::Start).unwrap();
    loop {
        let event = match action {
            CaptureAction::Acquire { timeout_ms } => {
                assert_eq!(timeout_ms, ACQUIRE_TIMEOUT_MS);
                match outcome {
                    Outcome::Timeout => CaptureEvent::AcquireTimedOut,
                    Outcome::Lost => CaptureEvent::AcquireAccessLost,
                    _ => {
                        assert!(!platform.held);
                        platform.held = true;
                        platform.acquires += 1;
                        let present = if matches!(outcome, Outcome::Unchanged) { 0 } else { 42 };
                        CaptureEvent::Acquired(FrameInfo {
                            last_present_time: present,
                            accumulated_frames: 1,
                        })
                    }
                }
            }
            CaptureAction::CopyToStaging => {
                if matches!(outcome, Outcome::CastFails) {
                    CaptureEvent::CastFailed
                } else {
                    CaptureEvent::Copied
                }
            }
            CaptureAction::Release => {
                assert!(platform.held);
                platform.held = false;
                platform.releases += 1;
                CaptureEvent::Released
            }
            CaptureAction::ReadStaging => CaptureEvent::Mapped {
                row_pitch: platform.row_pitch,
                data: mapped_image(width, height, platform.row_pitch),
            },
            CaptureAction::Done(result) => return result,
        };
        action = session.capture_frame(event).unwrap();
    }
}

fn platform(row_pitch: usize) -> Platform {
    Platform { acquires: 0, releases: 0, held: false, row_pitch }
}

#[test]
fn successful_capture_has_width_height_four_bytes() {
    let mut session = DesktopCapture::new(5, 3);
    let mut p = platform(32);
    let buf = run_capture(&mut session, &mut p, Outcome::Fresh).unwrap();
    assert_eq!(buf.len(), 5 * 3 * 4);
    assert_eq!(session.phase(), CapturePhase::Ready);
}

#[test]
fn padded_rows_are_stripped() {
    let data: Vec<u8> = vec![1, 2, 3, 4, 5, 6, 7, 8, 0, 0, 9, 10, 11, 12, 13, 14, 15, 16, 0, 0];
    let out = pack_rows(&data, 10, 2, 2);
    assert_eq!(out, vec![1, 2, 3, 4, 5, 6, 7, 8, 9, 10, 11, 12, 13, 14, 15, 16]);
}

#[test]
fn stride_8192_for_width_1920_leaves_no_padding() {
    let (width, height, pitch) = (1920u32, 6u32, 8192usize);
    let data = mapped_image(width, height, pitch);
    let out = pack_rows(&data, pitch, width, height);
    assert_eq!(out.len(), 1920 * 6 * 4);
    assert!(!out.contains(&0xEE));
    for y in 0..height as usize {
        assert_eq!(&out[y * 7680..(y + 1) * 7680], &data[y * pitch..y * pitch + 7680]);
    }
}

#[test]
fn tight_rows_are_copied_unchanged() {
    let data: Vec<u8> = (0u8..24).collect();
    assert_eq!(pack_rows(&data, 8, 2, 3), data);
}

#[test]
fn empty_mode_gives_empty_buffer() {
    let data: Vec<u8> = Vec::new();
    assert!(pack_rows(&data, 0, 0, 0).is_empty());
    assert!(pack_rows(&data, 16, 4, 0).is_empty());
}

#[test]
fn zero_present_time_is_no_change_and_released() {
    let mut session = DesktopCapture::new(4, 4);
    let mut p = platform(16);
    assert_eq!(run_capture(&mut session, &mut p, Outcome::Unchanged), Err(CaptureError::NoChange));
    assert_eq!((p.acquires, p.releases), (1, 1));
    assert!(run_capture(&mut session, &mut p, Outcome::Fresh).is_ok());
}

#[test]
fn nonzero_present_time_is_not_no_change() {
    let mut session = DesktopCapture::new(1, 1);
    session.capture_frame(CaptureEvent::Start).unwrap();
    let info = FrameInfo { last_present_time: 1, accumulated_frames: 1 };
    assert_eq!(session.capture_frame(CaptureEvent::Acquired(info)), Ok(CaptureAction::CopyToStaging));
    assert_eq!(session.capture_frame(CaptureEvent::Released), Err(ProtocolError::UnexpectedEvent));
}

#[test]
fn ten_thousand_cycles_release_every_acquire() {
    let mut session = DesktopCapture::new(8, 2);
    let mut p = platform(64);
    let outcomes = [Outcome::Fresh, Outcome::Unchanged, Outcome::Timeout, Outcome::CastFails];
    let (mut ok, mut unchanged, mut timeouts) = (0, 0, 0);
    for i in 0..10_000usize {
        match run_capture(&mut session, &mut p, outcomes[(i * 7 + i / 3) % 4]) {
            Ok(buf) => {
                assert_eq!(buf.len(), 8 * 2 * 4);
                ok += 1;
            }
            Err(CaptureError::NoChange) => unchanged += 1,
            Err(CaptureError::FrameTimeout) => timeouts += 1,
            Err(e) => assert_eq!(e, CaptureError::CastFailed),
        }
        assert_eq!(p.acquires, p.releases);
        assert!(!p.held);
    }
    assert!(ok > 0 && unchanged > 0 && timeouts > 0);
}

#[test]
fn timeout_returns_frame_timeout() {
    let mut session = DesktopCapture::new(2, 2);
    let mut p = platform(8);
    assert_eq!(run_capture(&mut session, &mut p, Outcome::Timeout), Err(CaptureError::FrameTimeout));
    assert_eq!((p.acquires, p.releases), (0, 0));
    assert_eq!(session.phase(), CapturePhase::Ready);
}

#[test]
fn access_lost_needs_a_new_session() {
    let mut session = DesktopCapture::new(3, 1);
    let mut p = platform(12);
    assert_eq!(run_capture(&mut session, &mut p, Outcome::Lost), Err(CaptureError::AccessLost));
    assert_eq!(session.phase(), CapturePhase::Lost);
    assert_eq!(
        session.capture_frame(CaptureEvent::Start),
        Ok(CaptureAction::Done(Err(CaptureError::AccessLost)))
    );
    let mut rebuilt = DesktopCapture::new(3, 1);
    let buf = run_capture(&mut rebuilt, &mut p, Outcome::Fresh).unwrap();
    assert_eq!(buf, vec![0, 1, 2, 3, 4, 5, 6, 7, 8, 9, 10, 11]);
}

#[test]
fn release_access_lost_ends_session() {
    let mut session = DesktopCapture::new(1, 1);
    session.capture_frame(CaptureEvent::Start).unwrap();
    let info = FrameInfo { last_present_time: 0, accumulated_frames: 0 };
    assert_eq!(session.capture_frame(CaptureEvent::Acquired(info)), Ok(CaptureAction::Release));
    assert_eq!(
        session.capture_frame(CaptureEvent::ReleaseAccessLost),
        Ok(CaptureAction::Done(Err(CaptureError::AccessLost)))
    );
    assert_eq!(session.phase(), CapturePhase::Lost);
}

#[test]
fn dimensions_survive_captures() {
    let mut session = DesktopCapture::new(7, 5);
    let mut p = platform(28);
    assert_eq!(session.get_dimensions(), (7, 5));
    for outcome in [Outcome::Fresh, Outcome::Unchanged, Outcome::Fresh, Outcome::Timeout] {
        let _ = run_capture(&mut session, &mut p, outcome);
        assert_eq!(session.get_dimensions(), (7, 5));
    }
}

#[test]
fn cast_failure_releases_then_reports() {
    let mut session = DesktopCapture::new(2, 2);
    let mut p = platform(8);
    assert_eq!(run_capture(&mut session, &mut p, Outcome::CastFails), Err(CaptureError::CastFailed));
    assert_eq!((p.acquires, p.releases), (1, 1));
}

#[test]
fn map_failure_and_short_mapping_are_map_failed() {
    let mut session = DesktopCapture::new(2, 2);
    let info = FrameInfo { last_present_time: 5, accumulated_frames: 1 };
    for event in [
        CaptureEvent::MapFailed,
        CaptureEvent::Mapped { row_pitch: 8, data: vec![0; 15] },
        CaptureEvent::Mapped { row_pitch: 7, data: vec![0; 64] },
    ] {
        session.capture_frame(CaptureEvent::Start).unwrap();
        session.capture_frame(CaptureEvent::Acquired(info)).unwrap();
        session.capture_frame(CaptureEvent::Copied).unwrap();
        assert_eq!(session.capture_frame(CaptureEvent::Released), Ok(CaptureAction::ReadStaging));
        assert_eq!(session.capture_frame(event), Ok(CaptureAction::Done(Err(CaptureError::MapFailed))));
    }
    assert_eq!(session.phase(), CapturePhase::Ready);
}

#[test]
fn last_row_needs_no_padding() {
    let mut session = DesktopCapture::new(1, 2);
    let info = FrameInfo { last_present_time: 5, accumulated_frames: 1 };
    session.capture_frame(CaptureEvent::Start).unwrap();
    session.capture_frame(CaptureEvent::Acquired(info)).unwrap();
    session.capture_frame(CaptureEvent::Copied).unwrap();
    session.capture_frame(CaptureEvent::Released).unwrap();
    let data = vec![1, 2, 3, 4, 0, 0, 0, 0, 5, 6, 7, 8];
    assert_eq!(
        session.capture_frame(CaptureEvent::Mapped { row_pitch: 8, data }),
        Ok(CaptureAction::Done(Ok(vec![1, 2, 3, 4, 5, 6, 7, 8])))
    );
}

#[test]
fn out_of_order_events_are_refused() {
    let mut session = DesktopCapture::new(1, 1);
    assert_eq!(session.capture_frame(CaptureEvent::Released), Err(ProtocolError::UnexpectedEvent));
    assert_eq!(session.capture_frame(CaptureEvent::Copied), Err(ProtocolError::UnexpectedEvent));
    session.capture_frame(CaptureEvent::Start).unwrap();
    assert_eq!(session.capture_frame(CaptureEvent::Start), Err(ProtocolError::UnexpectedEvent));
    assert_eq!(session.phase(), CapturePhase::Acquiring);
}

#[test]
fn duplicator_refuses_double_acquire_and_idle_release() {
    let mut dup = OutputDuplicator::new();
    assert_eq!(dup.release_frame(), Err(ProtocolError::NotAcquired));
    assert_eq!(dup.acquire_next_frame(), Ok(()));
    assert!(dup.is_holding_frame());
    assert_eq!(dup.acquire_next_frame(), Err(ProtocolError::AlreadyAcquired));
    assert_eq!(dup.release_frame(), Ok(()));
    assert!(!dup.is_holding_frame());
}

#[test]
fn buffer_len_is_four_bytes_per_pixel() {
    assert_eq!(buffer_len(1920, 1080), Some(1920 * 1080 * 4));
    assert_eq!(buffer_len(0, 1080), Some(0));
    assert_eq!(buffer_len(u32::MAX, u32::MAX), None);
}

#[test]
fn init_failures_are_classified() {
    assert_eq!(init_failure(InitStage::CreateFactory), CaptureError::AdapterNotFound);
    assert_eq!(init_failure(InitStage::EnumAdapter), CaptureError::AdapterNotFound);
    assert_eq!(init_failure(InitStage::CreateDevice), CaptureError::DeviceCreationFailed);
    assert_eq!(init_failure(InitStage::CreateStaging), CaptureError::DeviceCreationFailed);
    assert_eq!(init_failure(InitStage::EnumOutput), CaptureError::OutputDuplicationFailed);
    assert_eq!(init_failure(InitStage::DuplicateOutput), CaptureError::OutputDuplicationFailed);
    assert_eq!(init_failure(InitStage::CastOutput), CaptureError::CastFailed);
}
