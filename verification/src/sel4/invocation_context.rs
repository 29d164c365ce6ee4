use vstd::prelude::*;

use crate::sel4::Word;

verus! {

/// The number of message registers of an IPC buffer.
pub const MSG_MAX_LENGTH: usize = 120;

/// The number of capabilities that a message can carry.
pub const MSG_MAX_EXTRA_CAPS: usize = 3;

/// The buffer through which a thread exchanges messages with the kernel.
pub struct IPCBuffer {
    pub tag: Word,
    pub msg: [Word; 120],
    pub user_data: Word,
    pub caps_or_badges: [Word; 3],
    pub receive_cnode: Word,
    pub receive_index: Word,
    pub receive_depth: Word,
}

/// A way to get at the IPC buffer for the time of an invocation.
pub trait InvocationContext: Sized {
    /// Calls `f` once with the IPC buffer and returns what `f` returns.
    fn invoke<T, F: FnOnce(&mut IPCBuffer) -> T>(self, f: F) -> (r: T)
        requires
            forall|buffer: &mut IPCBuffer| f.requires((buffer,)),
        ensures
            exists|buffer: &mut IPCBuffer| #[trigger] f.ensures((buffer,), r),
    ;
}

/// The context of an invocation that needs no IPC buffer.
#[derive(Debug, Clone, Copy, PartialEq, Eq, Hash, Structural)]
pub struct NoInvocationContext;

impl NoInvocationContext {
    pub fn new() -> (r: Self)
        ensures
            r == NoInvocationContext,
    {
        NoInvocationContext
    }
}

impl Default for NoInvocationContext {
    fn default() -> (r: Self)
        ensures
            r == NoInvocationContext,
    {
        NoInvocationContext
    }
}

impl InvocationContext for &mut IPCBuffer {
    /// Calls `f` once with this buffer and returns what `f` returns; the
    /// buffer is left as `f` leaves it.
    fn invoke<T, F: FnOnce(&mut IPCBuffer) -> T>(self, f: F) -> (r: T)
        ensures
            exists|buffer: &mut IPCBuffer|
                #[trigger] f.ensures((buffer,), r) && *buffer == *old(self) && *final(buffer)
                    == *final(self),
    {
        f(self)
    }
}

} // verus!
