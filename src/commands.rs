use vstd::prelude::*;

use crate::error::Error;
use crate::registry::Device;
use crate::resources::{Texture, TextureStorage};

verus! {

/// The three mutually exclusive recording modes of a command buffer.
#[derive(Clone, Copy, Debug, PartialEq, Eq, Structural)]
pub enum PassKind {
    Render,
    Copy,
    Compute,
}

/// Whether a new pass may begin on a command buffer whose open pass is `open`.
pub open spec fn pass_may_begin(open: Option<PassKind>) -> bool {
    open is None
}

/// The open pass after asking to begin a pass of `kind`, where the native begin call
/// returned `native` (zero on failure).
pub open spec fn after_begin(open: Option<PassKind>, kind: PassKind, native: u64) -> Option<PassKind> {
    if pass_may_begin(open) && native != 0 {
        Some(kind)
    } else {
        open
    }
}

/// The open pass after ending a pass of `kind`.
pub open spec fn after_end(open: Option<PassKind>, kind: PassKind) -> Option<PassKind> {
    if open == Some(kind) {
        None
    } else {
        open
    }
}

/// A command buffer being recorded. It is consumed by `submit` or `cancel`, so nothing
/// can be recorded into it, nor can it be submitted or cancelled, a second time.
pub struct CommandBuffer {
    raw: u64,
    open: Option<PassKind>,
}

/// An open render pass of the command buffer with native handle `command_buffer`.
pub struct RenderPass {
    raw: u64,
    command_buffer: u64,
}

/// An open copy pass of the command buffer with native handle `command_buffer`.
pub struct CopyPass {
    raw: u64,
    command_buffer: u64,
}

/// An open compute pass of the command buffer with native handle `command_buffer`.
pub struct ComputePass {
    raw: u64,
    command_buffer: u64,
}

impl CommandBuffer {
    pub closed spec fn raw_spec(&self) -> u64 {
        self.raw
    }

    /// The pass that is open on this command buffer, if any.
    pub closed spec fn open_spec(&self) -> Option<PassKind> {
        self.open
    }

    /// The native handle.
    pub fn raw(&self) -> (r: u64)
        ensures
            r == self.raw_spec(),
    {
        self.raw
    }

    /// The pass that is open on this command buffer, if any.
    pub fn open_pass(&self) -> (r: Option<PassKind>)
        ensures
            r == self.open_spec(),
    {
        self.open
    }

    /// Whether a pass may begin now: none is open.
    pub fn may_begin_pass(&self) -> (r: bool)
        ensures
            r == pass_may_begin(self.open_spec()),
    {
        self.open.is_none()
    }

    /// Records the outcome of a native swapchain acquisition: `acquired` is what the
    /// native call reported, `native` the image handle, `width` and `height` its size.
    /// A native success without an image (none ready yet, or the window is minimized)
    /// is reported as `SwapchainUnavailable`, for the caller to retry later. The texture
    /// borrows this command buffer, so it cannot be used after `submit`. Both the
    /// waiting and the immediate form of the native call report through here.
    fn swapchain_outcome<'a>(
        &'a mut self,
        acquired: bool,
        native: u64,
        width: u32,
        height: u32,
        message: String,
    ) -> (r: Result<Texture<'a>, Error>)
        ensures
            *final(self) == *old(self),
            acquired && native != 0 ==> r is Ok && r->Ok_0.storage() == TextureStorage::Borrowed(
                native,
            ) && r->Ok_0.width_spec() == width && r->Ok_0.height_spec() == height,
            acquired && native == 0 ==> r == Err::<Texture<'a>, Error>(Error::SwapchainUnavailable),
            !acquired ==> r == Err::<Texture<'a>, Error>(Error::Native(message)),
    {
        if !acquired {
            Err(Error::Native(message))
        } else if native == 0 {
            Err(Error::SwapchainUnavailable)
        } else {
            Ok(Texture::borrowed(native, width, height))
        }
    }

    /// Records the outcome of the native wait-and-acquire of a swapchain image
    /// (see `swapchain_outcome`).
    pub fn wait_and_acquire_swapchain_texture<'a>(
        &'a mut self,
        acquired: bool,
        native: u64,
        width: u32,
        height: u32,
        message: String,
    ) -> (r: Result<Texture<'a>, Error>)
        ensures
            *final(self) == *old(self),
            acquired && native != 0 ==> r is Ok && r->Ok_0.storage() == TextureStorage::Borrowed(
                native,
            ) && r->Ok_0.width_spec() == width && r->Ok_0.height_spec() == height,
            acquired && native == 0 ==> r == Err::<Texture<'a>, Error>(Error::SwapchainUnavailable),
            !acquired ==> r == Err::<Texture<'a>, Error>(Error::Native(message)),
    {
        self.swapchain_outcome(acquired, native, width, height, message)
    }

    /// Records the outcome of the immediate native acquire of a swapchain image, which
    /// fails at once when no image is ready (see `swapchain_outcome`).
    pub fn acquire_swapchain_texture<'a>(
        &'a mut self,
        acquired: bool,
        native: u64,
        width: u32,
        height: u32,
        message: String,
    ) -> (r: Result<Texture<'a>, Error>)
        ensures
            *final(self) == *old(self),
            acquired && native != 0 ==> r is Ok && r->Ok_0.storage() == TextureStorage::Borrowed(
                native,
            ) && r->Ok_0.width_spec() == width && r->Ok_0.height_spec() == height,
            acquired && native == 0 ==> r == Err::<Texture<'a>, Error>(Error::SwapchainUnavailable),
            !acquired ==> r == Err::<Texture<'a>, Error>(Error::Native(message)),
    {
        self.swapchain_outcome(acquired, native, width, height, message)
    }

    /// Consumes the command buffer. Refused with `PassStillOpen` while a pass is open
    /// (the native submission must then not be made, and `submitted` is ignored);
    /// otherwise succeeds exactly when the native submission reported success.
    pub fn submit(self, submitted: bool, message: String) -> (r: Result<(), Error>)
        ensures
            self.open_spec() is Some ==> r == Err::<(), Error>(Error::PassStillOpen),
            self.open_spec() is None && submitted ==> r is Ok,
            self.open_spec() is None && !submitted ==> r == Err::<(), Error>(
                Error::Native(message),
            ),
    {
        if self.open.is_some() {
            Err(Error::PassStillOpen)
        } else if submitted {
            Ok(())
        } else {
            Err(Error::Native(message))
        }
    }

    /// Consumes the command buffer, discarding its work; returns the native handle to
    /// cancel. Always succeeds.
    pub fn cancel(self) -> (r: u64)
        ensures
            r == self.raw_spec(),
    {
        self.raw
    }
}

impl RenderPass {
    pub closed spec fn raw_spec(&self) -> u64 {
        self.raw
    }

    pub closed spec fn command_buffer_spec(&self) -> u64 {
        self.command_buffer
    }

    /// The native handle.
    pub fn raw(&self) -> (r: u64)
        ensures
            r == self.raw_spec(),
    {
        self.raw
    }
}

impl CopyPass {
    pub closed spec fn raw_spec(&self) -> u64 {
        self.raw
    }

    pub closed spec fn command_buffer_spec(&self) -> u64 {
        self.command_buffer
    }

    /// The native handle.
    pub fn raw(&self) -> (r: u64)
        ensures
            r == self.raw_spec(),
    {
        self.raw
    }
}

impl ComputePass {
    pub closed spec fn raw_spec(&self) -> u64 {
        self.raw
    }

    pub closed spec fn command_buffer_spec(&self) -> u64 {
        self.command_buffer
    }

    /// The native handle.
    pub fn raw(&self) -> (r: u64)
        ensures
            r == self.raw_spec(),
    {
        self.raw
    }
}

/// Beginning a pass: refused while another is open, then decided by the native call.
fn begin_pass(
    command_buffer: &mut CommandBuffer,
    kind: PassKind,
    native: u64,
    message: String,
) -> (r: Result<u64, Error>)
    ensures
        final(command_buffer).raw_spec() == old(command_buffer).raw_spec(),
        final(command_buffer).open_spec() == after_begin(old(command_buffer).open_spec(), kind, native),
        !pass_may_begin(old(command_buffer).open_spec()) ==> r == Err::<u64, Error>(
            Error::PassAlreadyOpen,
        ),
        pass_may_begin(old(command_buffer).open_spec()) && native == 0 ==> r == Err::<u64, Error>(
            Error::Native(message),
        ),
        pass_may_begin(old(command_buffer).open_spec()) && native != 0 ==> r == Ok::<u64, Error>(
            native,
        ),
{
    if command_buffer.open.is_some() {
        Err(Error::PassAlreadyOpen)
    } else if native == 0 {
        Err(Error::Native(message))
    } else {
        command_buffer.open = Some(kind);
        Ok(native)
    }
}

/// Ending a pass: only the open pass of this very command buffer can be ended.
fn end_pass(command_buffer: &mut CommandBuffer, kind: PassKind, owner: u64) -> (r: Result<(), Error>)
    ensures
        final(command_buffer).raw_spec() == old(command_buffer).raw_spec(),
        (old(command_buffer).open_spec() == Some(kind) && owner == old(command_buffer).raw_spec())
            ==> r is Ok && final(command_buffer).open_spec() == after_end(
            old(command_buffer).open_spec(),
            kind,
        ),
        !(old(command_buffer).open_spec() == Some(kind) && owner == old(command_buffer).raw_spec())
            ==> r == Err::<(), Error>(Error::NoPassOpen) && *final(command_buffer)
            == *old(command_buffer),
{
    let matches_open = match command_buffer.open {
        Some(k) => k == kind,
        None => false,
    };
    if matches_open && owner == command_buffer.raw {
        command_buffer.open = None;
        Ok(())
    } else {
        Err(Error::NoPassOpen)
    }
}

impl Device {
    /// Records the outcome of acquiring a command buffer: `native` is the handle that
    /// the native call returned (zero on failure). The new buffer has no pass open.
    pub fn acquire_command_buffer(&self, native: u64, message: String) -> (r: Result<CommandBuffer, Error>)
        ensures
            native == 0 ==> r == Err::<CommandBuffer, Error>(Error::Native(message)),
            native != 0 ==> r is Ok && r->Ok_0.raw_spec() == native && r->Ok_0.open_spec() is None,
    {
        if native == 0 {
            Err(Error::Native(message))
        } else {
            Ok(CommandBuffer { raw: native, open: None })
        }
    }

    /// Begins a render pass on `command_buffer`. Refused with `PassAlreadyOpen` while
    /// any pass is open (the native call must then not be made, and `native` is
    /// ignored); otherwise `native` is what the native begin call returned.
    pub fn begin_render_pass(
        &self,
        command_buffer: &mut CommandBuffer,
        native: u64,
        message: String,
    ) -> (r: Result<RenderPass, Error>)
        ensures
            final(command_buffer).raw_spec() == old(command_buffer).raw_spec(),
            final(command_buffer).open_spec() == after_begin(
                old(command_buffer).open_spec(),
                PassKind::Render,
                native,
            ),
            !pass_may_begin(old(command_buffer).open_spec()) ==> r == Err::<RenderPass, Error>(
                Error::PassAlreadyOpen,
            ),
            pass_may_begin(old(command_buffer).open_spec()) && native == 0 ==> r == Err::<
                RenderPass,
                Error,
            >(Error::Native(message)),
            pass_may_begin(old(command_buffer).open_spec()) && native != 0 ==> r is Ok
                && r->Ok_0.raw_spec() == native && r->Ok_0.command_buffer_spec()
                == old(command_buffer).raw_spec(),
    {
        match begin_pass(command_buffer, PassKind::Render, native, message) {
            Ok(raw) => Ok(RenderPass { raw, command_buffer: command_buffer.raw }),
            Err(e) => Err(e),
        }
    }

    /// Begins a copy pass on `command_buffer`; the same rules as `begin_render_pass`.
    pub fn begin_copy_pass(
        &self,
        command_buffer: &mut CommandBuffer,
        native: u64,
        message: String,
    ) -> (r: Result<CopyPass, Error>)
        ensures
            final(command_buffer).raw_spec() == old(command_buffer).raw_spec(),
            final(command_buffer).open_spec() == after_begin(
                old(command_buffer).open_spec(),
                PassKind::Copy,
                native,
            ),
            !pass_may_begin(old(command_buffer).open_spec()) ==> r == Err::<CopyPass, Error>(
                Error::PassAlreadyOpen,
            ),
            pass_may_begin(old(command_buffer).open_spec()) && native == 0 ==> r == Err::<
                CopyPass,
                Error,
            >(Error::Native(message)),
            pass_may_begin(old(command_buffer).open_spec()) && native != 0 ==> r is Ok
                && r->Ok_0.raw_spec() == native && r->Ok_0.command_buffer_spec()
                == old(command_buffer).raw_spec(),
    {
        match begin_pass(command_buffer, PassKind::Copy, native, message) {
            Ok(raw) => Ok(CopyPass { raw, command_buffer: command_buffer.raw }),
            Err(e) => Err(e),
        }
    }

    /// Begins a compute pass on `command_buffer`; the same rules as `begin_render_pass`.
    pub fn begin_compute_pass(
        &self,
        command_buffer: &mut CommandBuffer,
        native: u64,
        message: String,
    ) -> (r: Result<ComputePass, Error>)
        ensures
            final(command_buffer).raw_spec() == old(command_buffer).raw_spec(),
            final(command_buffer).open_spec() == after_begin(
                old(command_buffer).open_spec(),
                PassKind::Compute,
                native,
            ),
            !pass_may_begin(old(command_buffer).open_spec()) ==> r == Err::<ComputePass, Error>(
                Error::PassAlreadyOpen,
            ),
            pass_may_begin(old(command_buffer).open_spec()) && native == 0 ==> r == Err::<
                ComputePass,
                Error,
            >(Error::Native(message)),
            pass_may_begin(old(command_buffer).open_spec()) && native != 0 ==> r is Ok
                && r->Ok_0.raw_spec() == native && r->Ok_0.command_buffer_spec()
                == old(command_buffer).raw_spec(),
    {
        match begin_pass(command_buffer, PassKind::Compute, native, message) {
            Ok(raw) => Ok(ComputePass { raw, command_buffer: command_buffer.raw }),
            Err(e) => Err(e),
        }
    }

    /// Ends and consumes a render pass. Refused with `NoPassOpen`, leaving the command
    /// buffer as it was and handing the pass back, when the pass is not the render pass
    /// open on `command_buffer`.
    /// On success the caller makes the native end call with the pass's handle.
    pub fn end_render_pass(&self, command_buffer: &mut CommandBuffer, pass: RenderPass) -> (r: Result<
        (),
        (RenderPass, Error),
    >)
        ensures
            final(command_buffer).raw_spec() == old(command_buffer).raw_spec(),
            (old(command_buffer).open_spec() == Some(PassKind::Render) && pass.command_buffer_spec()
                == old(command_buffer).raw_spec()) ==> r is Ok && final(command_buffer).open_spec()
                is None,
            !(old(command_buffer).open_spec() == Some(PassKind::Render) && pass.command_buffer_spec()
                == old(command_buffer).raw_spec()) ==> r == Err::<(), (RenderPass, Error)>(
                (pass, Error::NoPassOpen),
            ) && *final(command_buffer) == *old(command_buffer),
    {
        match end_pass(command_buffer, PassKind::Render, pass.command_buffer) {
            Ok(()) => Ok(()),
            Err(e) => Err((pass, e)),
        }
    }

    /// Ends and consumes a copy pass; the same rules as `end_render_pass`.
    pub fn end_copy_pass(&self, command_buffer: &mut CommandBuffer, pass: CopyPass) -> (r: Result<
        (),
        (CopyPass, Error),
    >)
        ensures
            final(command_buffer).raw_spec() == old(command_buffer).raw_spec(),
            (old(command_buffer).open_spec() == Some(PassKind::Copy) && pass.command_buffer_spec()
                == old(command_buffer).raw_spec()) ==> r is Ok && final(command_buffer).open_spec()
                is None,
            !(old(command_buffer).open_spec() == Some(PassKind::Copy) && pass.command_buffer_spec()
                == old(command_buffer).raw_spec()) ==> r == Err::<(), (CopyPass, Error)>(
                (pass, Error::NoPassOpen),
            ) && *final(command_buffer) == *old(command_buffer),
    {
        match end_pass(command_buffer, PassKind::Copy, pass.command_buffer) {
            Ok(()) => Ok(()),
            Err(e) => Err((pass, e)),
        }
    }

    /// Ends and consumes a compute pass; the same rules as `end_render_pass`.
    pub fn end_compute_pass(&self, command_buffer: &mut CommandBuffer, pass: ComputePass) -> (r: Result<
        (),
        (ComputePass, Error),
    >)
        ensures
            final(command_buffer).raw_spec() == old(command_buffer).raw_spec(),
            (old(command_buffer).open_spec() == Some(PassKind::Compute) && pass.command_buffer_spec()
                == old(command_buffer).raw_spec()) ==> r is Ok && final(command_buffer).open_spec()
                is None,
            !(old(command_buffer).open_spec() == Some(PassKind::Compute) && pass.command_buffer_spec()
                == old(command_buffer).raw_spec()) ==> r == Err::<(), (ComputePass, Error)>(
                (pass, Error::NoPassOpen),
            ) && *final(command_buffer) == *old(command_buffer),
    {
        match end_pass(command_buffer, PassKind::Compute, pass.command_buffer) {
            Ok(()) => Ok(()),
            Err(e) => Err((pass, e)),
        }
    }
}

/// At most one pass is open at a time: while a pass of any kind is open, beginning a
/// pass of any kind is refused and leaves the open pass as it is; once the open pass
/// has ended, a pass of any kind, the same or another, begins when the native call
/// succeeds.
pub proof fn lemma_one_pass_at_a_time(open: PassKind, next: PassKind, native: u64)
    ensures
        !pass_may_begin(Some(open)),
        after_begin(Some(open), next, native) == Some(open),
        after_end(Some(open), open) is None,
        pass_may_begin(after_end(Some(open), open)),
        native != 0 ==> after_begin(after_end(Some(open), open), next, native) == Some(next),
{
}

} // verus!
