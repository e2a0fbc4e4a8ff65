use vstd::prelude::*;

verus! {

/// What went wrong in an operation of the GPU layer.
pub enum Error {
    /// A native call reported failure; carries the platform's last-error text.
    Native(String),
    /// A pass was requested while another pass is open on the command buffer.
    PassAlreadyOpen,
    /// A pass was ended that is not the one open on the command buffer.
    NoPassOpen,
    /// A command buffer was submitted while one of its passes is still open.
    PassStillOpen,
    /// The native acquire succeeded but no swapchain image is ready; try again later.
    SwapchainUnavailable,
    /// A copy names no live transfer buffer of this registry.
    UnknownTransferBuffer,
    /// A transfer buffer was mapped while a mapping of it is still live.
    AlreadyMapped,
    /// A transfer buffer was used in a copy while its memory is still mapped.
    StillMapped,
    /// Mapping a transfer buffer produced no memory; carries the platform's last-error text.
    MapFailed(String),
}

impl Error {
    /// The human-readable text of this error.
    pub fn message(&self) -> (r: String)
        ensures
            self matches Error::Native(m) ==> r@ == m@,
            self matches Error::MapFailed(m) ==> r@ == m@,
    {
        match self {
            Error::Native(m) => m.clone(),
            Error::PassAlreadyOpen => String::from_str("a pass is already open on this command buffer"),
            Error::NoPassOpen => String::from_str("that pass is not open on this command buffer"),
            Error::PassStillOpen => String::from_str("a pass is still open on this command buffer"),
            Error::SwapchainUnavailable => String::from_str("no swapchain image is ready"),
            Error::UnknownTransferBuffer => String::from_str(
                "the copy names no live transfer buffer",
            ),
            Error::AlreadyMapped => String::from_str("the transfer buffer is already mapped"),
            Error::StillMapped => String::from_str("the transfer buffer is still mapped"),
            Error::MapFailed(m) => m.clone(),
        }
    }
}

} // verus!
