//! The uniform lifecycle every codec backend implements: construct a session,
//! drive it one unit of work at a time, retune it (encode only), destroy it.
//! A session handle is moved into `destroy`, so no operation can reach it
//! afterwards.
use vstd::prelude::*;
use crate::catalog::{InnerDecodeContext, InnerEncodeContext};
use crate::render::ForeignTexture;

verus! {

/// What an encode session is created with.
#[derive(Clone, Copy, Debug, PartialEq, Eq, Structural)]
pub struct EncodeConfig {
    pub ctx: InnerEncodeContext,
    pub width: u32,
    pub height: u32,
    pub kbitrate: u32,
    pub framerate: u32,
    pub qp: u32,
}

/// What a decode session is created with: the pair to decode with and the
/// device its output textures are allocated against.
#[derive(Clone, Copy, Debug, PartialEq, Eq, Structural)]
pub struct DecodeConfig {
    pub ctx: InnerDecodeContext,
    pub device: u64,
}

/// One compressed packet produced by an encode step, with the target
/// bitrate it was encoded at.
#[derive(Clone, Debug)]
pub struct EncodeFrame {
    pub data: Vec<u8>,
    pub key: bool,
    pub kbitrate: u32,
}

/// An encode backend. A step consumes one raw frame and emits at most one
/// packet: none when the backend buffers it, to be emitted by a later step;
/// a failed step or retune leaves the session open, to be destroyed. Every
/// failure carries a non-zero native code.
pub trait EncodeBackend: Sized {
    type Session;

    /// Identifiers of the sessions this backend holds open.
    spec fn open_sessions(&self) -> Set<u64>;

    spec fn session_id(s: &Self::Session) -> u64;

    /// The target bitrate the next step encodes at.
    spec fn kbitrate(s: &Self::Session) -> u32;

    spec fn qp(s: &Self::Session) -> u32;

    spec fn framerate(s: &Self::Session) -> u32;

    fn new_encoder(&mut self, config: &EncodeConfig) -> (r: Result<Self::Session, i32>)
        ensures
            match r {
                Ok(s) => {
                    &&& !old(self).open_sessions().contains(Self::session_id(&s))
                    &&& final(self).open_sessions() == old(self).open_sessions().insert(
                        Self::session_id(&s),
                    )
                    &&& Self::kbitrate(&s) == config.kbitrate
                    &&& Self::qp(&s) == config.qp
                    &&& Self::framerate(&s) == config.framerate
                },
                Err(c) => c != 0 && final(self).open_sessions() == old(self).open_sessions(),
            },
    ;

    fn encode(&mut self, s: &mut Self::Session, frame: &Vec<u8>) -> (r: Result<Vec<EncodeFrame>, i32>)
        requires
            old(self).open_sessions().contains(Self::session_id(old(s))),
        ensures
            r matches Err(c) ==> c != 0,
            final(self).open_sessions() == old(self).open_sessions(),
            Self::session_id(final(s)) == Self::session_id(old(s)),
            Self::kbitrate(final(s)) == Self::kbitrate(old(s)),
            Self::qp(final(s)) == Self::qp(old(s)),
            Self::framerate(final(s)) == Self::framerate(old(s)),
            r matches Ok(out) ==> out@.len() <= 1,
            r matches Ok(out) ==> forall|k: int|
                0 <= k < out@.len() ==> (#[trigger] out@[k]).kbitrate == Self::kbitrate(old(s)),
    ;

    fn destroy(&mut self, s: Self::Session)
        requires
            old(self).open_sessions().contains(Self::session_id(&s)),
        ensures
            final(self).open_sessions() == old(self).open_sessions().remove(Self::session_id(&s)),
    ;

    /// A quick check that `ctx` works on this machine, without a full session.
    fn test(&self, ctx: &InnerEncodeContext) -> bool;

    fn set_bitrate(&mut self, s: &mut Self::Session, kbs: u32) -> (r: Result<(), i32>)
        requires
            old(self).open_sessions().contains(Self::session_id(old(s))),
        ensures
            r matches Err(c) ==> c != 0,
            final(self).open_sessions() == old(self).open_sessions(),
            Self::session_id(final(s)) == Self::session_id(old(s)),
            Self::kbitrate(final(s)) == if r is Ok { kbs } else { Self::kbitrate(old(s)) },
            Self::qp(final(s)) == Self::qp(old(s)),
            Self::framerate(final(s)) == Self::framerate(old(s)),
    ;

    fn set_qp(&mut self, s: &mut Self::Session, qp: u32) -> (r: Result<(), i32>)
        requires
            old(self).open_sessions().contains(Self::session_id(old(s))),
        ensures
            r matches Err(c) ==> c != 0,
            final(self).open_sessions() == old(self).open_sessions(),
            Self::session_id(final(s)) == Self::session_id(old(s)),
            Self::kbitrate(final(s)) == Self::kbitrate(old(s)),
            Self::qp(final(s)) == if r is Ok { qp } else { Self::qp(old(s)) },
            Self::framerate(final(s)) == Self::framerate(old(s)),
    ;

    fn set_framerate(&mut self, s: &mut Self::Session, framerate: u32) -> (r: Result<(), i32>)
        requires
            old(self).open_sessions().contains(Self::session_id(old(s))),
        ensures
            r matches Err(c) ==> c != 0,
            final(self).open_sessions() == old(self).open_sessions(),
            Self::session_id(final(s)) == Self::session_id(old(s)),
            Self::kbitrate(final(s)) == Self::kbitrate(old(s)),
            Self::qp(final(s)) == Self::qp(old(s)),
            Self::framerate(final(s)) == if r is Ok { framerate } else { Self::framerate(old(s)) },
    ;
}

/// A decode backend. A step consumes one compressed packet and emits at most
/// one texture, allocated against the device the session was created with.
/// Every failure carries a non-zero native code.
pub trait DecodeBackend: Sized {
    type Session;

    spec fn open_sessions(&self) -> Set<u64>;

    spec fn session_id(s: &Self::Session) -> u64;

    /// The device the session allocates its textures against.
    spec fn device(s: &Self::Session) -> u64;

    fn new_decoder(&mut self, config: &DecodeConfig) -> (r: Result<Self::Session, i32>)
        ensures
            match r {
                Ok(s) => {
                    &&& !old(self).open_sessions().contains(Self::session_id(&s))
                    &&& final(self).open_sessions() == old(self).open_sessions().insert(
                        Self::session_id(&s),
                    )
                    &&& Self::device(&s) == config.device
                },
                Err(c) => c != 0 && final(self).open_sessions() == old(self).open_sessions(),
            },
    ;

    fn decode(&mut self, s: &mut Self::Session, packet: &Vec<u8>) -> (r: Result<Vec<ForeignTexture>, i32>)
        requires
            old(self).open_sessions().contains(Self::session_id(old(s))),
        ensures
            r matches Err(c) ==> c != 0,
            final(self).open_sessions() == old(self).open_sessions(),
            Self::session_id(final(s)) == Self::session_id(old(s)),
            Self::device(final(s)) == Self::device(old(s)),
            r matches Ok(out) ==> out@.len() <= 1,
    ;

    fn destroy(&mut self, s: Self::Session)
        requires
            old(self).open_sessions().contains(Self::session_id(&s)),
        ensures
            final(self).open_sessions() == old(self).open_sessions().remove(Self::session_id(&s)),
    ;

    /// A quick check that `ctx` works on this machine, without a full session.
    fn test(&self, ctx: &InnerDecodeContext) -> bool;
}

/// Constructs an encode session and destroys it at once, with no step
/// between: the backend ends up holding exactly the sessions it held before,
/// whether or not construction succeeded.
pub fn open_and_close_encoder<B: EncodeBackend>(backend: &mut B, config: &EncodeConfig) -> (r:
    Result<(), i32>)
    ensures
        r matches Err(c) ==> c != 0,
        final(backend).open_sessions() == old(backend).open_sessions(),
{
    match backend.new_encoder(config) {
        Ok(s) => {
            backend.destroy(s);
            assert(final(backend).open_sessions() =~= old(backend).open_sessions());
            Ok(())
        },
        Err(code) => Err(code),
    }
}

/// Constructs a decode session and destroys it at once, with no step
/// between: the backend ends up holding exactly the sessions it held before,
/// whether or not construction succeeded.
pub fn open_and_close_decoder<B: DecodeBackend>(backend: &mut B, config: &DecodeConfig) -> (r:
    Result<(), i32>)
    ensures
        r matches Err(c) ==> c != 0,
        final(backend).open_sessions() == old(backend).open_sessions(),
{
    match backend.new_decoder(config) {
        Ok(s) => {
            backend.destroy(s);
            assert(final(backend).open_sessions() =~= old(backend).open_sessions());
            Ok(())
        },
        Err(code) => Err(code),
    }
}

/// Sets the bitrate of an open session, then runs one step; a failed retune
/// runs no step and leaves the bitrate as it was. When both succeed, the
/// packet of that step carries `kbs`, and the session keeps `kbs` for the
/// steps after it. The other settings are left as they were.
pub fn retune_and_encode<B: EncodeBackend>(
    backend: &mut B,
    s: &mut B::Session,
    kbs: u32,
    frame: &Vec<u8>,
) -> (r: Result<Vec<EncodeFrame>, i32>)
    requires
        old(backend).open_sessions().contains(B::session_id(old(s))),
    ensures
        r matches Err(c) ==> c != 0,
        final(backend).open_sessions() == old(backend).open_sessions(),
        B::session_id(final(s)) == B::session_id(old(s)),
        B::qp(final(s)) == B::qp(old(s)),
        B::framerate(final(s)) == B::framerate(old(s)),
        B::kbitrate(final(s)) == kbs || B::kbitrate(final(s)) == B::kbitrate(old(s)),
        r is Ok ==> B::kbitrate(final(s)) == kbs,
        r matches Ok(out) ==> out@.len() <= 1,
        r matches Ok(out) ==> forall|k: int| 0 <= k < out@.len() ==> (#[trigger] out@[k]).kbitrate == kbs,
{
    match backend.set_bitrate(s, kbs) {
        Ok(()) => backend.encode(s, frame),
        Err(code) => Err(code),
    }
}

} // verus!
