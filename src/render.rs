//! The presentation surface: owns a native rendering device and composites
//! textures that decode sessions allocated against that device.
use vstd::prelude::*;

verus! {

/// A GPU texture produced by a decode session, by its native handle.
#[derive(Clone, Copy, Debug, PartialEq, Eq, Structural)]
pub struct ForeignTexture {
    pub handle: u64,
}

#[derive(Clone, Copy, Debug, PartialEq, Eq, Structural)]
pub enum RenderError {
    /// The native composite call rejected the texture (for one, because it
    /// was allocated against another device); carries the native code.
    InteropFailure(i32),
    /// The surface has already been destroyed.
    Destroyed,
}

#[derive(Clone, Copy, Debug, PartialEq, Eq, Structural)]
pub enum SurfaceState {
    Created,
    Destroyed,
}

/// A presentation surface, in state Created until `drop` moves it to
/// Destroyed, which is terminal.
pub struct Render {
    inner: u64,
    device: u64,
    state: SurfaceState,
}

impl Render {
    /// The native render object this surface owns.
    pub closed spec fn inner_spec(&self) -> u64 {
        self.inner
    }

    /// The native device textures must be allocated against.
    pub closed spec fn device_spec(&self) -> u64 {
        self.device
    }

    pub closed spec fn state_spec(&self) -> SurfaceState {
        self.state
    }

    pub open spec fn is_created(&self) -> bool {
        self.state_spec() == SurfaceState::Created
    }

    /// Takes ownership of the native render object `inner` (zero when its
    /// creation failed) together with its device.
    pub fn new(inner: u64, device: u64) -> (r: Result<Render, ()>)
        ensures
            inner == 0 <==> r is Err,
            r matches Ok(s) ==> s.is_created() && s.inner_spec() == inner && s.device_spec()
                == device,
    {
        if inner == 0 {
            Err(())
        } else {
            Ok(Render { inner, device, state: SurfaceState::Created })
        }
    }

    pub fn state(&self) -> (r: SurfaceState)
        ensures
            r == self.state_spec(),
    {
        self.state
    }

    /// The outcome of compositing `tex` onto this surface, where `status` is
    /// what the native composite call returned for it: on a Created surface
    /// the native status, passed through by `render_status` (a texture of
    /// another device is rejected there with its native code); on a
    /// Destroyed one, `Destroyed`, whatever the status.
    pub fn render(&mut self, tex: &ForeignTexture, status: i32) -> (r: Result<(), RenderError>)
        ensures
            *final(self) == *old(self),
            r == if old(self).is_created() {
                status_result(status)
            } else {
                Err(RenderError::Destroyed)
            },
    {
        match self.state {
            SurfaceState::Created => render_status(status),
            SurfaceState::Destroyed => Err(RenderError::Destroyed),
        }
    }

    /// The device decode sessions must allocate their textures against.
    pub fn device(&mut self) -> (r: u64)
        requires
            old(self).is_created(),
        ensures
            *final(self) == *old(self),
            r == old(self).device_spec(),
    {
        self.device
    }

    /// Moves the surface to Destroyed and hands out the native render object
    /// to release; as it may be called only on a Created surface, the object
    /// is handed out once.
    pub fn drop(&mut self) -> (r: u64)
        requires
            old(self).is_created(),
        ensures
            final(self).state_spec() == SurfaceState::Destroyed,
            final(self).inner_spec() == old(self).inner_spec(),
            final(self).device_spec() == old(self).device_spec(),
            r == old(self).inner_spec(),
    {
        self.state = SurfaceState::Destroyed;
        self.inner
    }
}

/// The outcome of a native composite call that returned `code`: zero is
/// success, anything else an interop failure carrying the code verbatim.
pub open spec fn status_result(code: i32) -> Result<(), RenderError> {
    if code == 0 {
        Ok(())
    } else {
        Err(RenderError::InteropFailure(code))
    }
}

/// Maps the status of a native composite call as `status_result` says.
pub fn render_status(code: i32) -> (r: Result<(), RenderError>)
    ensures
        r == status_result(code),
{
    if code == 0 {
        Ok(())
    } else {
        Err(RenderError::InteropFailure(code))
    }
}

} // verus!
