//! Per-request stream session state.
//!
//! A session drives the only steady state of a stream handler: capture one
//! frame from the hardware pool, emit its three chunks, release the buffer,
//! repeat. The hardware owns a small fixed pool, so the critical invariant
//! is that every successful capture is matched by exactly one release, on
//! the error exit path as much as on the happy one. The session tracks that
//! pairing; its well-formedness is preserved by every step and forces the
//! outstanding-buffer count back to zero by the time the session ends.

use vstd::prelude::*;

use crate::encoder::{boundary_chunk, part_header_chunk, spec_boundary, spec_part_header};

verus! {

/// The request-scoped state of one stream handler.
pub struct StreamSession {
    /// False once the transport or the hardware has failed; the handler
    /// loop stops at the first poll that sees it.
    pub live: bool,
    /// A captured buffer is currently held and not yet released.
    pub holding: bool,
    /// How many captures have succeeded over the session's lifetime. Also
    /// serves as the diagnostic frame counter: it only ever grows.
    pub captures: u64,
    /// How many buffers have been returned to the hardware pool.
    pub releases: u64,
}

impl StreamSession {
    /// The session bookkeeping is consistent: never more buffers released
    /// than captured, at most one buffer outstanding (the hardware pool has
    /// a single entry), and an ended session holds nothing.
    pub open spec fn wf(&self) -> bool {
        &&& self.releases <= self.captures
        &&& self.captures - self.releases == (if self.holding { 1int } else { 0int })
        &&& !self.live ==> !self.holding
    }

    /// How many captured buffers have not yet been released.
    pub open spec fn spec_outstanding(&self) -> int {
        self.captures - self.releases
    }

    /// A fresh session: live, holding nothing, counters at zero.
    pub fn new() -> (s: StreamSession)
        ensures
            s.wf(),
            s.live,
            !s.holding,
            s.captures == 0,
            s.releases == 0,
    {
        StreamSession { live: true, holding: false, captures: 0, releases: 0 }
    }

    /// Record a successful capture of a frame of `frame_len` bytes and hand
    /// back the two chunks to write before its payload: the boundary marker
    /// and the header whose length field is computed from `frame_len`
    /// itself.
    pub fn begin_frame(&mut self, frame_len: usize) -> (chunks: (Vec<u8>, Vec<u8>))
        requires
            old(self).wf(),
            old(self).live,
            !old(self).holding,
            old(self).captures < u64::MAX,
        ensures
            final(self).wf(),
            final(self).live,
            final(self).holding,
            final(self).captures == old(self).captures + 1,
            final(self).releases == old(self).releases,
            chunks.0@ == spec_boundary(),
            chunks.1@ == spec_part_header(frame_len as nat),
    {
        self.captures = self.captures + 1;
        self.holding = true;
        (boundary_chunk(), part_header_chunk(frame_len))
    }

    /// Record that the held buffer was released back to the pool after its
    /// chunks were written (or after the write failed). The release happens
    /// in both cases; a failed write additionally ends the session.
    pub fn finish_frame(&mut self, write_ok: bool)
        requires
            old(self).wf(),
            old(self).holding,
        ensures
            final(self).wf(),
            !final(self).holding,
            final(self).captures == old(self).captures,
            final(self).releases == old(self).releases + 1,
            final(self).live == (old(self).live && write_ok),
    {
        self.releases = self.releases + 1;
        self.holding = false;
        if !write_ok {
            self.live = false;
        }
    }

    /// Record that a capture failed; no buffer was handed out, so there is
    /// nothing to release, and the session ends.
    pub fn capture_failed(&mut self)
        requires
            old(self).wf(),
            old(self).live,
            !old(self).holding,
        ensures
            final(self).wf(),
            !final(self).live,
            !final(self).holding,
            final(self).captures == old(self).captures,
            final(self).releases == old(self).releases,
    {
        self.live = false;
    }

    /// Whether the handler loop should run another iteration.
    pub fn is_live(&self) -> (r: bool)
        ensures
            r == self.live,
    {
        self.live
    }

    /// The number of captured buffers not yet released.
    pub fn outstanding(&self) -> (n: u64)
        requires
            self.wf(),
        ensures
            n == self.spec_outstanding(),
    {
        self.captures - self.releases
    }

    /// The diagnostic frame counter: captures to date.
    pub fn frames_captured(&self) -> (n: u64)
        ensures
            n == self.captures,
    {
        self.captures
    }
}

/// Capture and release are exactly-once paired: whatever mix of successful
/// emits, write failures and capture failures a session went through, once
/// it has ended every successful capture has been matched by exactly one
/// release and no buffer of the hardware pool is left outstanding.
pub proof fn lemma_ended_session_balanced(s: StreamSession)
    requires
        s.wf(),
        !s.live,
    ensures
        s.captures == s.releases,
        s.spec_outstanding() == 0,
{
}

} // verus!
