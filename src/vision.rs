//! Capture session: the acquire/release protocol of the duplicated output,
//! the orchestration of one capture, and the reader that strips row padding.
use vstd::prelude::*;

verus! {

/// How long one capture waits for the display to present a frame.
pub const ACQUIRE_TIMEOUT_MS: u32 = 100;

/// Failures of session construction and of a capture.
#[derive(Debug, Clone, Copy, PartialEq, Eq, Structural)]
pub enum CaptureError {
    AdapterNotFound,
    DeviceCreationFailed,
    OutputDuplicationFailed,
    /// No frame arrived within the timeout; the caller may retry at once.
    FrameTimeout,
    /// A frame was delivered whose content has not changed.
    NoChange,
    /// The duplication was invalidated; the session must be rebuilt.
    AccessLost,
    MapFailed,
    CastFailed,
}

/// Misuse of the acquire/release protocol, reported instead of ignored.
#[derive(Debug, Clone, Copy, PartialEq, Eq, Structural)]
pub enum ProtocolError {
    /// A frame was acquired while another one was still held.
    AlreadyAcquired,
    /// A frame was released while none was held.
    NotAcquired,
    /// The event does not answer the step the capture is waiting on.
    UnexpectedEvent,
}

#[derive(Debug, Clone, Copy, PartialEq, Eq, Structural)]
pub enum DuplicatorState {
    Idle,
    FrameAcquired,
}

/// The two-state acquire/release protocol of a duplicated output, with a
/// count of the acquires and releases it has seen.
pub struct OutputDuplicator {
    state: DuplicatorState,
    acquired: Ghost<nat>,
    released: Ghost<nat>,
}

pub ghost struct DuplicatorView {
    pub state: DuplicatorState,
    pub acquired: nat,
    pub released: nat,
}

impl View for OutputDuplicator {
    type V = DuplicatorView;

    closed spec fn view(&self) -> DuplicatorView {
        DuplicatorView { state: self.state, acquired: self.acquired@, released: self.released@ }
    }
}

impl DuplicatorView {
    /// Every acquire is matched by one release, but for the frame held now.
    pub open spec fn wf(self) -> bool {
        match self.state {
            DuplicatorState::Idle => self.acquired == self.released,
            DuplicatorState::FrameAcquired => self.acquired == self.released + 1,
        }
    }
}

impl OutputDuplicator {
    pub fn new() -> (r: OutputDuplicator)
        ensures
            r@ == (DuplicatorView { state: DuplicatorState::Idle, acquired: 0, released: 0 }),
            r@.wf(),
    {
        OutputDuplicator { state: DuplicatorState::Idle, acquired: Ghost(0), released: Ghost(0) }
    }

    /// Records a successful acquire: Idle to FrameAcquired, and an error
    /// with nothing changed where a frame is already held.
    pub fn acquire_next_frame(&mut self) -> (r: Result<(), ProtocolError>)
        ensures
            old(self)@.state == DuplicatorState::Idle ==> r is Ok && final(self)@ == (
            DuplicatorView {
                state: DuplicatorState::FrameAcquired,
                acquired: old(self)@.acquired + 1,
                released: old(self)@.released,
            }),
            old(self)@.state == DuplicatorState::FrameAcquired ==> r == Err::<(), _>(
                ProtocolError::AlreadyAcquired,
            ) && final(self)@ == old(self)@,
            old(self)@.wf() ==> final(self)@.wf(),
    {
        match self.state {
            DuplicatorState::Idle => {
                self.state = DuplicatorState::FrameAcquired;
                self.acquired = Ghost(self.acquired@ + 1);
                Ok(())
            },
            DuplicatorState::FrameAcquired => Err(ProtocolError::AlreadyAcquired),
        }
    }

    /// Records a release: FrameAcquired to Idle, and an error with nothing
    /// changed where no frame is held.
    pub fn release_frame(&mut self) -> (r: Result<(), ProtocolError>)
        ensures
            old(self)@.state == DuplicatorState::FrameAcquired ==> r is Ok && final(self)@ == (
            DuplicatorView {
                state: DuplicatorState::Idle,
                acquired: old(self)@.acquired,
                released: old(self)@.released + 1,
            }),
            old(self)@.state == DuplicatorState::Idle ==> r == Err::<(), _>(
                ProtocolError::NotAcquired,
            ) && final(self)@ == old(self)@,
            old(self)@.wf() ==> final(self)@.wf(),
    {
        match self.state {
            DuplicatorState::FrameAcquired => {
                self.state = DuplicatorState::Idle;
                self.released = Ghost(self.released@ + 1);
                Ok(())
            },
            DuplicatorState::Idle => Err(ProtocolError::NotAcquired),
        }
    }

    pub fn is_holding_frame(&self) -> (r: bool)
        ensures
            r == (self@.state == DuplicatorState::FrameAcquired),
    {
        match self.state {
            DuplicatorState::FrameAcquired => true,
            DuplicatorState::Idle => false,
        }
    }
}

/// Row `r` of a mapped image: the `row_bytes` bytes that start at `r * row_pitch`.
pub open spec fn source_row(data: Seq<u8>, row_pitch: nat, row_bytes: nat, r: int) -> Seq<u8> {
    data.subrange(r * row_pitch, r * row_pitch + row_bytes)
}

/// The first `rows` rows of a mapped image.
pub open spec fn source_rows(data: Seq<u8>, row_pitch: nat, row_bytes: nat, rows: nat) -> Seq<Seq<u8>> {
    Seq::new(rows, |r: int| source_row(data, row_pitch, row_bytes, r))
}

/// The tightly packed image: the rows of a mapped image, one after another,
/// with the padding at the end of each row left out.
pub open spec fn packed(data: Seq<u8>, row_pitch: nat, width: nat, height: nat) -> Seq<u8> {
    source_rows(data, row_pitch, width * 4, height).flatten()
}

/// A mapped image of `height` rows fits in `len` bytes with stride `row_pitch`.
pub open spec fn layout_fits(len: nat, row_pitch: nat, width: nat, height: nat) -> bool {
    &&& width * 4 <= row_pitch
    &&& height > 0 ==> (height - 1) * row_pitch + width * 4 <= len
}

/// The byte length of a packed image, where it fits in `usize`.
pub open spec fn frame_len_fits(width: nat, height: nat) -> bool {
    width * height * 4 <= usize::MAX
}

proof fn lemma_row_in_bounds(row_pitch: nat, row_bytes: nat, height: nat, r: nat)
    requires
        row_bytes <= row_pitch,
        r < height,
    ensures
        r * row_pitch + row_bytes <= (height - 1) * row_pitch + row_bytes,
{
    assert(r * row_pitch <= (height - 1) * row_pitch) by (nonlinear_arith)
        requires r <= height - 1;
}

/// A packed image holds `width * 4` bytes for each of its rows.
pub proof fn lemma_packed_len(data: Seq<u8>, row_pitch: nat, width: nat, height: nat)
    requires
        layout_fits(data.len(), row_pitch, width, height),
    ensures
        packed(data, row_pitch, width, height).len() == width * height * 4,
    decreases height,
{
    if height > 0 {
        let h1 = (height - 1) as nat;
        assert(layout_fits(data.len(), row_pitch, width, h1)) by {
            if h1 > 0 {
                assert((h1 - 1) * row_pitch <= h1 * row_pitch) by (nonlinear_arith);
                assert(h1 * row_pitch == (height - 1) * row_pitch);
            }
        }
        lemma_packed_len(data, row_pitch, width, h1);
        let rows = source_rows(data, row_pitch, width * 4, height);
        assert(rows =~= source_rows(data, row_pitch, width * 4, h1).push(
            source_row(data, row_pitch, width * 4, h1 as int),
        ));
        Seq::lemma_flatten_push(
            source_rows(data, row_pitch, width * 4, h1),
            source_row(data, row_pitch, width * 4, h1 as int),
        );
        assert(width * h1 * 4 + width * 4 == width * height * 4) by (nonlinear_arith)
            requires h1 + 1 == height;
    }
}

/// Assembles a tightly packed image from a mapped one whose rows may carry
/// padding: for each row, exactly `width * 4` bytes starting at `row * row_pitch`.
pub fn pack_rows(data: &Vec<u8>, row_pitch: usize, width: u32, height: u32) -> (r: Vec<u8>)
    requires
        layout_fits(data@.len(), row_pitch as nat, width as nat, height as nat),
        frame_len_fits(width as nat, height as nat),
    ensures
        r@ == packed(data@, row_pitch as nat, width as nat, height as nat),
        r@.len() == width * height * 4,
{
    let row_bytes: usize = width as usize * 4;
    let data_len: usize = data.len();
    let mut out: Vec<u8> = Vec::new();
    let mut y: usize = 0;
    while y < height as usize
        invariant
            layout_fits(data@.len(), row_pitch as nat, width as nat, height as nat),
            row_bytes == width * 4,
            data_len == data@.len(),
            y <= height,
            out@ == source_rows(data@, row_pitch as nat, row_bytes as nat, y as nat).flatten(),
        decreases height - y,
    {
        proof {
            lemma_row_in_bounds(row_pitch as nat, row_bytes as nat, height as nat, y as nat);
            assert(y * row_pitch + row_bytes <= data_len);
        }
        let start: usize = y * row_pitch;
        let ghost before = out@;
        let mut c: usize = 0;
        while c < row_bytes
            invariant
                layout_fits(data@.len(), row_pitch as nat, width as nat, height as nat),
                row_bytes == width * 4,
                y < height,
                start == y * row_pitch,
                data_len == data@.len(),
                start + row_bytes <= data@.len(),
                c <= row_bytes,
                out@ == before + data@.subrange(start as int, start + c),
            decreases row_bytes - c,
        {
            out.push(data[start + c]);
            c = c + 1;
            assert(out@ =~= before + data@.subrange(start as int, start + c));
        }
        proof {
            let rows = source_rows(data@, row_pitch as nat, row_bytes as nat, y as nat);
            let row = source_row(data@, row_pitch as nat, row_bytes as nat, y as int);
            Seq::lemma_flatten_push(rows, row);
            assert(source_rows(data@, row_pitch as nat, row_bytes as nat, (y + 1) as nat) =~= rows.push(row));
        }
        y = y + 1;
    }
    proof {
        lemma_packed_len(data@, row_pitch as nat, width as nat, height as nat);
    }
    out
}

/// The platform steps that build a capture session, in order.
#[derive(Debug, Clone, Copy, PartialEq, Eq, Structural)]
pub enum InitStage {
    CreateFactory,
    EnumAdapter,
    CreateDevice,
    EnumOutput,
    CastOutput,
    DuplicateOutput,
    CreateStaging,
}

/// The error that a failure at `stage` is reported as.
pub open spec fn stage_error(stage: InitStage) -> CaptureError {
    match stage {
        InitStage::CreateFactory | InitStage::EnumAdapter => CaptureError::AdapterNotFound,
        InitStage::CreateDevice | InitStage::CreateStaging => CaptureError::DeviceCreationFailed,
        InitStage::EnumOutput | InitStage::DuplicateOutput => CaptureError::OutputDuplicationFailed,
        InitStage::CastOutput => CaptureError::CastFailed,
    }
}

/// Classifies a failure while building a session: no adapter, no usable
/// device, no duplicated output, or an interface that could not be cast.
pub fn init_failure(stage: InitStage) -> (r: CaptureError)
    ensures
        r == stage_error(stage),
{
    match stage {
        InitStage::CreateFactory | InitStage::EnumAdapter => CaptureError::AdapterNotFound,
        InitStage::CreateDevice | InitStage::CreateStaging => CaptureError::DeviceCreationFailed,
        InitStage::EnumOutput | InitStage::DuplicateOutput => CaptureError::OutputDuplicationFailed,
        InitStage::CastOutput => CaptureError::CastFailed,
    }
}

/// Per-acquire metadata of a delivered frame.
#[derive(Debug, Clone, Copy, PartialEq, Eq, Structural)]
pub struct FrameInfo {
    /// Zero when nothing was presented since the previous acquire.
    pub last_present_time: i64,
    pub accumulated_frames: u32,
}

/// What a capture does once the held frame has been released.
#[derive(Debug, Clone, Copy, PartialEq, Eq, Structural)]
pub enum AfterRelease {
    /// Map the staging buffer and read the copied pixels.
    ReadFrame,
    /// End the capture with this error.
    Report(CaptureError),
}

/// The step a capture session is waiting on.
#[derive(Debug, Clone, Copy, PartialEq, Eq, Structural)]
pub enum CapturePhase {
    /// No capture in progress.
    Ready,
    /// Waiting for the outcome of an acquire.
    Acquiring,
    /// A frame is held; waiting for its copy into the staging buffer.
    Copying,
    /// A frame is held; waiting for its release.
    Releasing(AfterRelease),
    /// Waiting for the mapped staging buffer.
    Mapping,
    /// The duplication was invalidated; only a new session can capture.
    Lost,
}

/// What the platform reports back to a capture session.
#[derive(Debug, Clone, PartialEq, Eq)]
pub enum CaptureEvent {
    /// A capture is requested.
    Start,
    /// A frame was acquired.
    Acquired(FrameInfo),
    AcquireTimedOut,
    AcquireAccessLost,
    /// The acquired frame was copied into the staging buffer.
    Copied,
    /// The acquired resource could not be viewed as a texture.
    CastFailed,
    Released,
    /// The release failed because the duplication was invalidated.
    ReleaseAccessLost,
    /// The staging buffer was mapped, read out and unmapped.
    Mapped { row_pitch: usize, data: Vec<u8> },
    MapFailed,
}

/// What a capture session asks the platform to do next.
#[derive(Debug, PartialEq, Eq)]
pub enum CaptureAction {
    /// Wait up to `timeout_ms` for the next frame.
    Acquire { timeout_ms: u32 },
    /// Copy the held frame into the staging buffer.
    CopyToStaging,
    /// Release the held frame.
    Release,
    /// Map the staging buffer and hand back its rows.
    ReadStaging,
    /// The capture is over, with a packed image or an error.
    Done(Result<Vec<u8>, CaptureError>),
}

/// One capture session on one duplicated output: the cached output mode and
/// the state of the capture in progress.
pub struct DesktopCapture {
    width: u32,
    height: u32,
    phase: CapturePhase,
    frame: FrameInfo,
    duplicator: OutputDuplicator,
}

pub ghost struct CaptureView {
    pub width: u32,
    pub height: u32,
    pub phase: CapturePhase,
    /// The metadata of the latest acquired frame.
    pub frame: FrameInfo,
    pub duplicator: DuplicatorView,
}

impl View for DesktopCapture {
    type V = CaptureView;

    closed spec fn view(&self) -> CaptureView {
        CaptureView {
            width: self.width,
            height: self.height,
            phase: self.phase,
            frame: self.frame,
            duplicator: self.duplicator@,
        }
    }
}

pub open spec fn holds_frame(phase: CapturePhase) -> bool {
    phase is Copying || phase is Releasing
}

impl CaptureView {
    pub open spec fn wf(self) -> bool {
        &&& frame_len_fits(self.width as nat, self.height as nat)
        &&& self.duplicator.wf()
        &&& (self.duplicator.state == DuplicatorState::FrameAcquired) == holds_frame(self.phase)
        &&& match self.phase {
            CapturePhase::Copying => self.frame.last_present_time != 0,
            CapturePhase::Releasing(AfterRelease::ReadFrame) => self.frame.last_present_time != 0,
            CapturePhase::Releasing(AfterRelease::Report(e)) => (e == CaptureError::NoChange
                || e == CaptureError::CastFailed) && (e == CaptureError::NoChange)
                == (self.frame.last_present_time == 0),
            _ => true,
        }
    }

    pub open spec fn with_phase(self, phase: CapturePhase) -> CaptureView {
        CaptureView { phase, ..self }
    }

    /// The session after the platform acquired a frame with metadata `info`.
    pub open spec fn after_acquire(self, info: FrameInfo) -> CaptureView {
        CaptureView {
            phase: if info.last_present_time == 0 {
                CapturePhase::Releasing(AfterRelease::Report(CaptureError::NoChange))
            } else {
                CapturePhase::Copying
            },
            frame: info,
            duplicator: DuplicatorView {
                state: DuplicatorState::FrameAcquired,
                acquired: self.duplicator.acquired + 1,
                ..self.duplicator
            },
            ..self
        }
    }

    /// The session after the held frame was released, now in `phase`.
    pub open spec fn after_release(self, phase: CapturePhase) -> CaptureView {
        CaptureView {
            phase,
            duplicator: DuplicatorView {
                state: DuplicatorState::Idle,
                released: self.duplicator.released + 1,
                ..self.duplicator
            },
            ..self
        }
    }
}

pub open spec fn done_with(e: CaptureError) -> Result<CaptureAction, ProtocolError> {
    Ok(CaptureAction::Done(Err(e)))
}

/// One step of a capture: from session `s` and event `e` to session `t` and
/// the answer `r`. An event that the phase does not wait for changes nothing.
pub open spec fn capture_step(
    s: CaptureView,
    e: CaptureEvent,
    t: CaptureView,
    r: Result<CaptureAction, ProtocolError>,
) -> bool {
    match (s.phase, e) {
        (CapturePhase::Ready, CaptureEvent::Start) => t == s.with_phase(CapturePhase::Acquiring)
            && r == Ok::<_, ProtocolError>(CaptureAction::Acquire { timeout_ms: ACQUIRE_TIMEOUT_MS }),
        (CapturePhase::Lost, CaptureEvent::Start) => t == s && r == done_with(CaptureError::AccessLost),
        (CapturePhase::Acquiring, CaptureEvent::Acquired(info)) => t == s.after_acquire(info) && r == (
        if info.last_present_time == 0 {
            Ok::<_, ProtocolError>(CaptureAction::Release)
        } else {
            Ok::<_, ProtocolError>(CaptureAction::CopyToStaging)
        }),
        (CapturePhase::Acquiring, CaptureEvent::AcquireTimedOut) => t == s.with_phase(CapturePhase::Ready)
            && r == done_with(CaptureError::FrameTimeout),
        (CapturePhase::Acquiring, CaptureEvent::AcquireAccessLost) => t == s.with_phase(CapturePhase::Lost)
            && r == done_with(CaptureError::AccessLost),
        (CapturePhase::Copying, CaptureEvent::Copied) => t == s.with_phase(
            CapturePhase::Releasing(AfterRelease::ReadFrame),
        ) && r == Ok::<_, ProtocolError>(CaptureAction::Release),
        (CapturePhase::Copying, CaptureEvent::CastFailed) => t == s.with_phase(
            CapturePhase::Releasing(AfterRelease::Report(CaptureError::CastFailed)),
        ) && r == Ok::<_, ProtocolError>(CaptureAction::Release),
        (CapturePhase::Releasing(AfterRelease::ReadFrame), CaptureEvent::Released) => t
            == s.after_release(CapturePhase::Mapping) && r == Ok::<_, ProtocolError>(CaptureAction::ReadStaging),
        (CapturePhase::Releasing(AfterRelease::Report(err)), CaptureEvent::Released) => t
            == s.after_release(CapturePhase::Ready) && r == done_with(err),
        (CapturePhase::Releasing(_), CaptureEvent::ReleaseAccessLost) => t == s.after_release(
            CapturePhase::Lost,
        ) && r == done_with(CaptureError::AccessLost),
        (CapturePhase::Mapping, CaptureEvent::Mapped { row_pitch, data }) => t == s.with_phase(
            CapturePhase::Ready,
        ) && if layout_fits(data@.len(), row_pitch as nat, s.width as nat, s.height as nat) {
            r matches Ok(CaptureAction::Done(Ok(buf))) && buf@ == packed(
                data@,
                row_pitch as nat,
                s.width as nat,
                s.height as nat,
            )
        } else {
            r == done_with(CaptureError::MapFailed)
        },
        (CapturePhase::Mapping, CaptureEvent::MapFailed) => t == s.with_phase(CapturePhase::Ready)
            && r == done_with(CaptureError::MapFailed),
        _ => t == s && r == Err::<CaptureAction, _>(ProtocolError::UnexpectedEvent),
    }
}

/// Whether a mapped image of `len` bytes with stride `row_pitch` holds `height`
/// rows of `width` pixels.
fn check_layout(len: usize, row_pitch: usize, width: u32, height: u32) -> (r: bool)
    ensures
        r == layout_fits(len as nat, row_pitch as nat, width as nat, height as nat),
{
    let row_bytes: u128 = width as u128 * 4;
    if (row_pitch as u128) < row_bytes {
        false
    } else if height == 0 {
        true
    } else {
        let rows: u128 = height as u128 - 1;
        assert(rows * (row_pitch as u128) <= 0xffff_ffffu128 * 0xffff_ffff_ffff_ffffu128)
            by (nonlinear_arith)
            requires rows <= 0xffff_ffffu128, row_pitch as u128 <= 0xffff_ffff_ffff_ffffu128;
        rows * (row_pitch as u128) + row_bytes <= len as u128
    }
}

/// The byte length of a packed `width` by `height` image, where `usize` holds it.
pub fn buffer_len(width: u32, height: u32) -> (r: Option<usize>)
    ensures
        frame_len_fits(width as nat, height as nat) ==> r == Some((width * height * 4) as usize),
        !frame_len_fits(width as nat, height as nat) ==> r is None,
{
    assert(width as u128 * height as u128 <= 0xffff_ffffu128 * 0xffff_ffffu128) by (nonlinear_arith)
        requires width as u128 <= 0xffff_ffffu128, height as u128 <= 0xffff_ffffu128;
    let n: u128 = width as u128 * height as u128 * 4;
    if n <= usize::MAX as u128 {
        Some(n as usize)
    } else {
        None
    }
}

impl DesktopCapture {
    /// A session on an output whose mode is `width` by `height` B8G8R8A8
    /// pixels, ready to capture.
    pub fn new(width: u32, height: u32) -> (r: DesktopCapture)
        requires
            frame_len_fits(width as nat, height as nat),
        ensures
            r@ == (CaptureView {
                width,
                height,
                phase: CapturePhase::Ready,
                frame: FrameInfo { last_present_time: 0, accumulated_frames: 0 },
                duplicator: DuplicatorView { state: DuplicatorState::Idle, acquired: 0, released: 0 },
            }),
            r@.wf(),
    {
        DesktopCapture {
            width,
            height,
            phase: CapturePhase::Ready,
            frame: FrameInfo { last_present_time: 0, accumulated_frames: 0 },
            duplicator: OutputDuplicator::new(),
        }
    }

    /// The cached output mode; it does not change for the session's lifetime.
    pub fn get_dimensions(&self) -> (r: (u32, u32))
        ensures
            r == (self@.width, self@.height),
    {
        (self.width, self.height)
    }

    pub fn phase(&self) -> (r: CapturePhase)
        ensures
            r == self@.phase,
    {
        self.phase
    }

    /// Advances the capture in progress by one platform event and says what
    /// to do next. A capture acquires with a timeout, releases every frame it
    /// acquired (also an unchanged one, and one it could not copy), releases
    /// right after the copy, and ends with the packed image or a typed error.
    pub fn capture_frame(&mut self, event: CaptureEvent) -> (r: Result<CaptureAction, ProtocolError>)
        requires
            old(self)@.wf(),
        ensures
            final(self)@.wf(),
            capture_step(old(self)@, event, final(self)@, r),
    {
        match event {
            CaptureEvent::Start => match self.phase {
                CapturePhase::Ready => {
                    self.phase = CapturePhase::Acquiring;
                    Ok(CaptureAction::Acquire { timeout_ms: ACQUIRE_TIMEOUT_MS })
                },
                CapturePhase::Lost => Ok(CaptureAction::Done(Err(CaptureError::AccessLost))),
                _ => Err(ProtocolError::UnexpectedEvent),
            },
            CaptureEvent::Acquired(info) => match self.phase {
                CapturePhase::Acquiring => {
                    let _ = self.duplicator.acquire_next_frame();
                    self.frame = info;
                    if info.last_present_time == 0 {
                        self.phase = CapturePhase::Releasing(AfterRelease::Report(CaptureError::NoChange));
                        Ok(CaptureAction::Release)
                    } else {
                        self.phase = CapturePhase::Copying;
                        Ok(CaptureAction::CopyToStaging)
                    }
                },
                _ => Err(ProtocolError::UnexpectedEvent),
            },
            CaptureEvent::AcquireTimedOut => match self.phase {
                CapturePhase::Acquiring => {
                    self.phase = CapturePhase::Ready;
                    Ok(CaptureAction::Done(Err(CaptureError::FrameTimeout)))
                },
                _ => Err(ProtocolError::UnexpectedEvent),
            },
            CaptureEvent::AcquireAccessLost => match self.phase {
                CapturePhase::Acquiring => {
                    self.phase = CapturePhase::Lost;
                    Ok(CaptureAction::Done(Err(CaptureError::AccessLost)))
                },
                _ => Err(ProtocolError::UnexpectedEvent),
            },
            CaptureEvent::Copied => match self.phase {
                CapturePhase::Copying => {
                    self.phase = CapturePhase::Releasing(AfterRelease::ReadFrame);
                    Ok(CaptureAction::Release)
                },
                _ => Err(ProtocolError::UnexpectedEvent),
            },
            CaptureEvent::CastFailed => match self.phase {
                CapturePhase::Copying => {
                    self.phase = CapturePhase::Releasing(AfterRelease::Report(CaptureError::CastFailed));
                    Ok(CaptureAction::Release)
                },
                _ => Err(ProtocolError::UnexpectedEvent),
            },
            CaptureEvent::Released => match self.phase {
                CapturePhase::Releasing(after) => {
                    let _ = self.duplicator.release_frame();
                    match after {
                        AfterRelease::ReadFrame => {
                            self.phase = CapturePhase::Mapping;
                            Ok(CaptureAction::ReadStaging)
                        },
                        AfterRelease::Report(err) => {
                            self.phase = CapturePhase::Ready;
                            Ok(CaptureAction::Done(Err(err)))
                        },
                    }
                },
                _ => Err(ProtocolError::UnexpectedEvent),
            },
            CaptureEvent::ReleaseAccessLost => match self.phase {
                CapturePhase::Releasing(_) => {
                    let _ = self.duplicator.release_frame();
                    self.phase = CapturePhase::Lost;
                    Ok(CaptureAction::Done(Err(CaptureError::AccessLost)))
                },
                _ => Err(ProtocolError::UnexpectedEvent),
            },
            CaptureEvent::Mapped { row_pitch, data } => match self.phase {
                CapturePhase::Mapping => {
                    self.phase = CapturePhase::Ready;
                    if check_layout(data.len(), row_pitch, self.width, self.height) {
                        Ok(CaptureAction::Done(Ok(pack_rows(&data, row_pitch, self.width, self.height))))
                    } else {
                        Ok(CaptureAction::Done(Err(CaptureError::MapFailed)))
                    }
                },
                _ => Err(ProtocolError::UnexpectedEvent),
            },
            CaptureEvent::MapFailed => match self.phase {
                CapturePhase::Mapping => {
                    self.phase = CapturePhase::Ready;
                    Ok(CaptureAction::Done(Err(CaptureError::MapFailed)))
                },
                _ => Err(ProtocolError::UnexpectedEvent),
            },
        }
    }
}

/// Each row of a packed image is the matching row of the mapped image, byte
/// for byte, with none of the padding that follows it there.
pub proof fn lemma_packed_rows(data: Seq<u8>, row_pitch: nat, width: nat, height: nat, r: int)
    requires
        layout_fits(data.len(), row_pitch, width, height),
        0 <= r < height,
    ensures
        packed(data, row_pitch, width, height).subrange(r * (width * 4), r * (width * 4) + width * 4)
            == data.subrange(r * row_pitch, r * row_pitch + width * 4),
    decreases height,
{
    let rb = (width * 4) as int;
    let h1 = (height - 1) as nat;
    lemma_row_in_bounds(row_pitch, width * 4, height, r as nat);
    assert(layout_fits(data.len(), row_pitch, width, h1)) by {
        if h1 > 0 {
            assert((h1 - 1) * row_pitch <= h1 * row_pitch) by (nonlinear_arith);
        }
    }
    lemma_packed_len(data, row_pitch, width, h1);
    let prefix = source_rows(data, row_pitch, width * 4, h1);
    let row = source_row(data, row_pitch, width * 4, h1 as int);
    assert(source_rows(data, row_pitch, width * 4, height) =~= prefix.push(row));
    Seq::lemma_flatten_push(prefix, row);
    let whole = packed(data, row_pitch, width, height);
    assert(whole == prefix.flatten() + row);
    assert(prefix.flatten().len() == h1 * rb) by (nonlinear_arith)
        requires prefix.flatten().len() == width * h1 * 4, rb == width * 4;
    if r < h1 {
        lemma_packed_rows(data, row_pitch, width, h1, r);
        assert(r * rb + rb <= h1 * rb) by (nonlinear_arith)
            requires 0 <= r < h1, rb >= 0;
        assert(whole.subrange(r * rb, r * rb + rb) =~= prefix.flatten().subrange(r * rb, r * rb + rb));
    } else {
        assert(whole.subrange(r * rb, r * rb + rb) =~= row);
    }
}

/// A successful capture hands back exactly `width * height * 4` bytes.
pub proof fn lemma_capture_len(
    s: CaptureView,
    e: CaptureEvent,
    t: CaptureView,
    r: Result<CaptureAction, ProtocolError>,
)
    requires
        s.wf(),
        capture_step(s, e, t, r),
    ensures
        r matches Ok(CaptureAction::Done(Ok(buf))) ==> buf@.len() == s.width * s.height * 4,
{
    if let CaptureEvent::Mapped { row_pitch, data } = e {
        if s.phase == CapturePhase::Mapping && layout_fits(
            data@.len(),
            row_pitch as nat,
            s.width as nat,
            s.height as nat,
        ) {
            lemma_packed_len(data@, row_pitch as nat, s.width as nat, s.height as nat);
        }
    }
}

/// A capture reports `NoChange` only where it releases a frame whose
/// presentation time is zero.
pub proof fn lemma_no_change_only_for_unchanged_frames(
    s: CaptureView,
    e: CaptureEvent,
    t: CaptureView,
    r: Result<CaptureAction, ProtocolError>,
)
    requires
        s.wf(),
        capture_step(s, e, t, r),
    ensures
        r == done_with(CaptureError::NoChange) ==> e is Released && s.phase is Releasing
            && s.frame.last_present_time == 0,
{
}

/// A frame acquired and then released ends the capture with `NoChange` if and
/// only if its presentation time is zero.
pub proof fn lemma_no_change_iff_zero_present_time(
    s: CaptureView,
    info: FrameInfo,
    t: CaptureView,
    r: Result<CaptureAction, ProtocolError>,
    u: CaptureView,
    q: Result<CaptureAction, ProtocolError>,
)
    requires
        s.wf(),
        s.phase == CapturePhase::Acquiring,
        capture_step(s, CaptureEvent::Acquired(info), t, r),
        capture_step(t, CaptureEvent::Released, u, q),
    ensures
        (q == done_with(CaptureError::NoChange)) == (info.last_present_time == 0),
{
}

/// Every step keeps the session well formed: at most one frame is held, each
/// acquire is followed by exactly one release before the capture ends, a
/// release is asked for only while a frame is held, and no step acquires or
/// releases more than once.
pub proof fn lemma_release_per_acquire(
    s: CaptureView,
    e: CaptureEvent,
    t: CaptureView,
    r: Result<CaptureAction, ProtocolError>,
)
    requires
        s.wf(),
        capture_step(s, e, t, r),
    ensures
        t.wf(),
        t.duplicator.released <= t.duplicator.acquired <= t.duplicator.released + 1,
        t.duplicator.acquired <= s.duplicator.acquired + 1,
        t.duplicator.released <= s.duplicator.released + 1,
        r matches Ok(CaptureAction::Done(_)) ==> t.duplicator.acquired == t.duplicator.released,
        r == Ok::<_, ProtocolError>(CaptureAction::Release) ==> t.duplicator.state
            == DuplicatorState::FrameAcquired,
{
}

/// An acquire that times out ends the capture with `FrameTimeout`, and the
/// session is ready for the next attempt.
pub proof fn lemma_timeout_is_frame_timeout(
    s: CaptureView,
    t: CaptureView,
    r: Result<CaptureAction, ProtocolError>,
)
    requires
        s.phase == CapturePhase::Acquiring,
        capture_step(s, CaptureEvent::AcquireTimedOut, t, r),
    ensures
        r == done_with(CaptureError::FrameTimeout),
        t.phase == CapturePhase::Ready,
{
}

/// No step changes the cached output mode.
pub proof fn lemma_dimensions_fixed(
    s: CaptureView,
    e: CaptureEvent,
    t: CaptureView,
    r: Result<CaptureAction, ProtocolError>,
)
    requires
        capture_step(s, e, t, r),
    ensures
        t.width == s.width,
        t.height == s.height,
{
}

/// A session that lost access can be replaced by a new one on the same
/// output mode: the mode of every well-formed session meets what
/// `DesktopCapture::new` requires, whatever phase that session is in.
pub proof fn lemma_rebuild_after_loss(lost: CaptureView)
    requires
        lost.wf(),
        lost.phase == CapturePhase::Lost,
    ensures
        frame_len_fits(lost.width as nat, lost.height as nat),
{
}

} // verus!
