use vstd::prelude::*;

verus! {

/// Frame acquisition timeout in milliseconds: zero polls without blocking.
pub const ACQUISITION_TIMEOUT: u32 = 0;

/// Bytes per pixel of the staging surface (packed blue, green, red, alpha).
pub const BYTES_PER_PIXEL: u32 = 4;

/// Status code the duplication API reports when no new frame arrived in time
/// (`DXGI_ERROR_WAIT_TIMEOUT`, 0x887A0027, read as a signed 32-bit value).
pub const WAIT_TIMEOUT_CODE: i32 = -2005270489;

/// Failures of the capture stack, from construction to one acquisition cycle.
#[derive(Clone, Copy, Debug, PartialEq, Eq, Structural)]
pub enum CaptureError {
    /// No compatible hardware device could be created.
    DeviceCreation,
    /// The staging surface could not be allocated (bad dimensions, no memory).
    SurfaceAllocation,
    /// The output cannot be duplicated; the whole stack must be rebuilt.
    DuplicationUnavailable,
    /// No new frame within the timeout: expected, retried next cycle.
    AcquisitionTimeout,
    /// Acquisition failed for another reason.
    AcquisitionFatal,
    /// The staging surface could not be mapped or read.
    MapFailed,
}

/// What one acquisition attempt reported, as decided from its status code.
pub open spec fn acquire_outcome(code: i32) -> Result<(), CaptureError> {
    if code >= 0 {
        Ok(())
    } else if code == WAIT_TIMEOUT_CODE {
        Err(CaptureError::AcquisitionTimeout)
    } else {
        Err(CaptureError::AcquisitionFatal)
    }
}

/// The exact size of a frame read out of a mapping with the given row pitch.
pub open spec fn frame_len(row_pitch: u32, height: i32) -> int {
    row_pitch as int * height as int
}

/// Abstract state of a capture session: the fixed surface size and whether a
/// frame is acquired and not yet released.
pub struct CaptureState {
    pub width: int,
    pub height: int,
    pub held: bool,
}

/// Protocol state of a desktop capture session. The device, the staging
/// surface and the duplication handle are owned by the caller; this value
/// decides each step of the acquire, copy, map, read and release cycle.
pub struct DesktopCapture {
    screen_width: i32,
    screen_height: i32,
    frame_held: bool,
}

impl View for DesktopCapture {
    type V = CaptureState;

    closed spec fn view(&self) -> CaptureState {
        CaptureState {
            width: self.screen_width as int,
            height: self.screen_height as int,
            held: self.frame_held,
        }
    }
}

/// The state after an acquisition attempt that reported `code`.
pub open spec fn after_acquire(s: CaptureState, code: i32) -> CaptureState {
    if acquire_outcome(code) is Ok {
        CaptureState { held: true, ..s }
    } else {
        s
    }
}

/// The state after the frame of a cycle has been read (or not) and released.
pub open spec fn after_release(s: CaptureState) -> CaptureState {
    CaptureState { held: false, ..s }
}

/// The state after a run of acquisition attempts, one per status code, each
/// attempt that succeeds being read and released before the next.
pub open spec fn after_attempts(s: CaptureState, codes: Seq<i32>) -> CaptureState
    decreases codes.len(),
{
    if codes.len() == 0 {
        s
    } else {
        let a = after_acquire(s, codes[0]);
        let b = if a.held { after_release(a) } else { a };
        after_attempts(b, codes.drop_first())
    }
}

/// No attempt leaves a frame held: a failed acquisition holds none, and a
/// frame that was acquired is released when its cycle ends, whether the
/// mapping succeeded or not.
pub proof fn lemma_attempt_releases_frame(s: CaptureState, code: i32)
    requires
        !s.held,
    ensures
        acquire_outcome(code) is Err ==> !after_acquire(s, code).held,
        acquire_outcome(code) is Ok ==> after_acquire(s, code).held
            && !after_release(after_acquire(s, code)).held,
        !after_attempts(s, seq![code]).held,
{
    let codes = seq![code];
    assert(codes[0] == code);
    assert(codes.drop_first() =~= Seq::<i32>::empty());
    assert(after_attempts(s, codes) == after_attempts(after_release(after_acquire(s, code)), codes.drop_first())
        || after_attempts(s, codes) == after_attempts(after_acquire(s, code), codes.drop_first()));
}

/// Timeouts change nothing: after any number of attempts that time out the
/// session is in exactly the state it was in before them.
pub proof fn lemma_timeouts_leave_state(s: CaptureState, codes: Seq<i32>)
    requires
        !s.held,
        forall|i: int| 0 <= i < codes.len() ==> codes[i] == WAIT_TIMEOUT_CODE,
    ensures
        after_attempts(s, codes) == s,
    decreases codes.len(),
{
    if codes.len() > 0 {
        assert(after_acquire(s, codes[0]) == s);
        lemma_timeouts_leave_state(s, codes.drop_first());
    }
}

impl DesktopCapture {
    pub open spec fn wf(&self) -> bool {
        self@.width > 0 && self@.height > 0
    }

    /// Starts a session for a surface of `screen_width` by `screen_height`
    /// pixels; non-positive dimensions cannot be allocated.
    pub fn new(screen_width: i32, screen_height: i32) -> (r: Result<Self, CaptureError>)
        ensures
            (screen_width > 0 && screen_height > 0) <==> r is Ok,
            r is Err ==> r == Err::<Self, CaptureError>(CaptureError::SurfaceAllocation),
            r matches Ok(c) ==> c.wf() && c@ == (CaptureState {
                width: screen_width as int,
                height: screen_height as int,
                held: false,
            }),
    {
        if screen_width <= 0 || screen_height <= 0 {
            return Err(CaptureError::SurfaceAllocation);
        }
        Ok(DesktopCapture { screen_width, screen_height, frame_held: false })
    }

    /// Screen width and height, fixed for the life of the session.
    pub fn get_dimensions(&self) -> (r: (i32, i32))
        ensures
            r.0 as int == self@.width,
            r.1 as int == self@.height,
    {
        (self.screen_width, self.screen_height)
    }

    /// Whether a frame is acquired and still owed a release.
    pub fn is_frame_held(&self) -> (r: bool)
        ensures
            r == self@.held,
    {
        self.frame_held
    }

    /// Records the status of a frame acquisition. A non-negative status holds
    /// the frame; a timeout or any other failure leaves the session untouched.
    pub fn record_acquire(&mut self, code: i32) -> (r: Result<(), CaptureError>)
        requires
            !old(self)@.held,
        ensures
            r == acquire_outcome(code),
            final(self)@ == after_acquire(old(self)@, code),
            final(self).wf() == old(self).wf(),
    {
        if code >= 0 {
            self.frame_held = true;
            Ok(())
        } else if code == WAIT_TIMEOUT_CODE {
            Err(CaptureError::AcquisitionTimeout)
        } else {
            Err(CaptureError::AcquisitionFatal)
        }
    }

    /// The number of bytes to read from a mapping with pitch `row_pitch`:
    /// the pitch, not the logical width, times the surface height.
    pub fn buffer_len(&self, row_pitch: u32) -> (r: u64)
        requires
            self.wf(),
        ensures
            r as int == frame_len(row_pitch, self@.height as i32),
    {
        proof {
            assert(self@.height as i32 == self.screen_height);
            assert(0 <= row_pitch as int * self.screen_height as int <= 0xffff_ffff * 0x7fff_ffff)
                by (nonlinear_arith)
                requires
                    self.screen_height > 0,
            ;
        }
        row_pitch as u64 * self.screen_height as u64
    }

    /// Ends the cycle of a held frame: copies the mapped bytes, if the mapping
    /// succeeded, into an owned buffer of exactly `row_pitch * height` bytes,
    /// and marks the frame released. The caller unmaps the surface and
    /// releases the frame whatever this returns.
    pub fn finish_cycle(&mut self, mapped: Option<(&[u8], u32)>) -> (r: Result<Vec<u8>, CaptureError>)
        requires
            old(self).wf(),
            old(self)@.held,
        ensures
            final(self)@ == after_release(old(self)@),
            final(self).wf(),
            match mapped {
                None => r == Err::<Vec<u8>, CaptureError>(CaptureError::MapFailed),
                Some((src, pitch)) => {
                    let n = frame_len(pitch, old(self)@.height as i32);
                    if n <= src@.len() {
                        r matches Ok(buf) && buf@ == src@.subrange(0, n)
                    } else {
                        r == Err::<Vec<u8>, CaptureError>(CaptureError::MapFailed)
                    }
                },
            },
    {
        self.frame_held = false;
        match mapped {
            None => Err(CaptureError::MapFailed),
            Some((src, row_pitch)) => {
                let n = self.buffer_len(row_pitch);
                if n > src.len() as u64 {
                    Err(CaptureError::MapFailed)
                } else {
                    Ok(copy_prefix(src, n as usize))
                }
            },
        }
    }
}

/// Copies the first `len` bytes of `src` into a freshly allocated buffer.
pub fn copy_prefix(src: &[u8], len: usize) -> (r: Vec<u8>)
    requires
        len <= src@.len(),
    ensures
        r@ == src@.subrange(0, len as int),
{
    let mut out: Vec<u8> = Vec::with_capacity(len);
    let mut i: usize = 0;
    while i < len
        invariant
            i <= len <= src@.len(),
            out@ == src@.subrange(0, i as int),
        decreases len - i,
    {
        out.push(src[i]);
        i = i + 1;
        proof {
            assert(out@ =~= src@.subrange(0, i as int));
        }
    }
    out
}

} // verus!
