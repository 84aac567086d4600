//! Backends that run no codec: they keep count of open sessions and record
//! the settings each step would use, so a pipeline can be exercised without
//! hardware.
use vstd::prelude::*;
use crate::catalog::{InnerDecodeContext, InnerEncodeContext};
use crate::dispatch::{DecodeBackend, DecodeConfig, EncodeBackend, EncodeConfig, EncodeFrame};
use crate::render::ForeignTexture;

verus! {

/// An encode backend whose packets echo the raw frame, tagged with the
/// settings in effect.
pub struct RecordingEncoder {
    next_id: u64,
    live: u64,
    open: Ghost<Set<u64>>,
}

pub struct RecordingEncodeSession {
    id: u64,
    kbitrate: u32,
    qp: u32,
    framerate: u32,
    started: bool,
}

impl RecordingEncoder {
    #[verifier::type_invariant]
    spec fn wf(&self) -> bool {
        &&& self.open@.finite()
        &&& self.live == self.open@.len()
        &&& self.live <= self.next_id
        &&& forall|id: u64| #[trigger] self.open@.contains(id) ==> id < self.next_id
    }

    pub fn new() -> (r: RecordingEncoder)
        ensures
            r.open_sessions() == Set::<u64>::empty(),
    {
        RecordingEncoder { next_id: 0, live: 0, open: Ghost(Set::empty()) }
    }

    /// How many sessions are open.
    pub fn live_sessions(&self) -> (r: u64)
        ensures
            r == self.open_sessions().len(),
    {
        proof {
            use_type_invariant(self);
        }
        self.live
    }
}

impl RecordingEncodeSession {
    /// The target bitrate the next step encodes at.
    pub fn kbitrate(&self) -> (r: u32)
        ensures
            r == <RecordingEncoder as EncodeBackend>::kbitrate(self),
    {
        self.kbitrate
    }
}

impl EncodeBackend for RecordingEncoder {
    type Session = RecordingEncodeSession;

    closed spec fn open_sessions(&self) -> Set<u64> {
        self.open@
    }

    closed spec fn session_id(s: &RecordingEncodeSession) -> u64 {
        s.id
    }

    closed spec fn kbitrate(s: &RecordingEncodeSession) -> u32 {
        s.kbitrate
    }

    closed spec fn qp(s: &RecordingEncodeSession) -> u32 {
        s.qp
    }

    closed spec fn framerate(s: &RecordingEncodeSession) -> u32 {
        s.framerate
    }

    /// Fails with -1 once every session identifier has been handed out.
    fn new_encoder(&mut self, config: &EncodeConfig) -> (r: Result<RecordingEncodeSession, i32>) {
        proof {
            use_type_invariant(&*self);
        }
        if self.next_id == u64::MAX {
            return Err(-1);
        }
        let id = self.next_id;
        let ghost open = self.open@.insert(id);
        assert(!self.open@.contains(id));
        *self = RecordingEncoder { next_id: id + 1, live: self.live + 1, open: Ghost(open) };
        Ok(
            RecordingEncodeSession {
                id,
                kbitrate: config.kbitrate,
                qp: config.qp,
                framerate: config.framerate,
                started: false,
            },
        )
    }

    fn encode(&mut self, s: &mut RecordingEncodeSession, frame: &Vec<u8>) -> (r: Result<
        Vec<EncodeFrame>,
        i32,
    >) {
        let packet = EncodeFrame { data: frame.clone(), key: !s.started, kbitrate: s.kbitrate };
        s.started = true;
        Ok(vec![packet])
    }

    fn destroy(&mut self, s: RecordingEncodeSession) {
        proof {
            use_type_invariant(&*self);
        }
        let ghost open = self.open@.remove(s.id);
        assert(self.live >= 1);
        *self = RecordingEncoder { next_id: self.next_id, live: self.live - 1, open: Ghost(open) };
    }

    fn test(&self, ctx: &InnerEncodeContext) -> bool {
        true
    }

    fn set_bitrate(&mut self, s: &mut RecordingEncodeSession, kbs: u32) -> (r: Result<(), i32>) {
        s.kbitrate = kbs;
        Ok(())
    }

    fn set_qp(&mut self, s: &mut RecordingEncodeSession, qp: u32) -> (r: Result<(), i32>) {
        s.qp = qp;
        Ok(())
    }

    fn set_framerate(&mut self, s: &mut RecordingEncodeSession, framerate: u32) -> (r: Result<
        (),
        i32,
    >) {
        s.framerate = framerate;
        Ok(())
    }
}

/// A decode backend that emits one texture per packet, numbered in order.
pub struct RecordingDecoder {
    next_id: u64,
    live: u64,
    open: Ghost<Set<u64>>,
}

pub struct RecordingDecodeSession {
    id: u64,
    device: u64,
    decoded: u64,
}

impl RecordingDecoder {
    #[verifier::type_invariant]
    spec fn wf(&self) -> bool {
        &&& self.open@.finite()
        &&& self.live == self.open@.len()
        &&& self.live <= self.next_id
        &&& forall|id: u64| #[trigger] self.open@.contains(id) ==> id < self.next_id
    }

    pub fn new() -> (r: RecordingDecoder)
        ensures
            r.open_sessions() == Set::<u64>::empty(),
    {
        RecordingDecoder { next_id: 0, live: 0, open: Ghost(Set::empty()) }
    }

    /// How many sessions are open.
    pub fn live_sessions(&self) -> (r: u64)
        ensures
            r == self.open_sessions().len(),
    {
        proof {
            use_type_invariant(self);
        }
        self.live
    }
}

impl DecodeBackend for RecordingDecoder {
    type Session = RecordingDecodeSession;

    closed spec fn open_sessions(&self) -> Set<u64> {
        self.open@
    }

    closed spec fn session_id(s: &RecordingDecodeSession) -> u64 {
        s.id
    }

    closed spec fn device(s: &RecordingDecodeSession) -> u64 {
        s.device
    }

    /// Fails with -1 once every session identifier has been handed out.
    fn new_decoder(&mut self, config: &DecodeConfig) -> (r: Result<RecordingDecodeSession, i32>) {
        proof {
            use_type_invariant(&*self);
        }
        if self.next_id == u64::MAX {
            return Err(-1);
        }
        let id = self.next_id;
        let ghost open = self.open@.insert(id);
        assert(!self.open@.contains(id));
        *self = RecordingDecoder { next_id: id + 1, live: self.live + 1, open: Ghost(open) };
        Ok(RecordingDecodeSession { id, device: config.device, decoded: 0 })
    }

    /// Fails with -1 once the texture numbers are used up.
    fn decode(&mut self, s: &mut RecordingDecodeSession, packet: &Vec<u8>) -> (r: Result<
        Vec<ForeignTexture>,
        i32,
    >) {
        if s.decoded == u64::MAX {
            return Err(-1);
        }
        let tex = ForeignTexture { handle: s.decoded };
        s.decoded = s.decoded + 1;
        Ok(vec![tex])
    }

    fn destroy(&mut self, s: RecordingDecodeSession) {
        proof {
            use_type_invariant(&*self);
        }
        let ghost open = self.open@.remove(s.id);
        assert(self.live >= 1);
        *self = RecordingDecoder { next_id: self.next_id, live: self.live - 1, open: Ghost(open) };
    }

    fn test(&self, ctx: &InnerDecodeContext) -> bool {
        true
    }
}

} // verus!
