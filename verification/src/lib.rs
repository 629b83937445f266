use vstd::prelude::*;

pub mod addr;
pub mod dgram;
pub mod filter;
pub mod ifname;
pub mod raw;

verus! {

/// Interprets the return count of a byte-transfer kernel call: a negative
/// count reports failure through `errno`, any other count is the number of
/// bytes transferred.
pub fn io_result(rv: isize, errno: i32) -> (r: Result<usize, PacketError>)
    ensures
        rv < 0 <==> r == Err::<usize, PacketError>(PacketError::Os(errno)),
        rv >= 0 ==> r == Ok::<usize, PacketError>(rv as usize),
{
    if rv < 0 {
        Err(PacketError::Os(errno))
    } else {
        Ok(rv as usize)
    }
}

/// The descriptor flag bit that switches a descriptor to non-blocking mode.
pub const O_NONBLOCK: i32 = 2048;

/// Computes the flag word that switching to non-blocking mode writes back:
/// the flags that were read, with the non-blocking bit ORed in and nothing
/// else changed.
pub fn nonblocking_flags(flags: i32) -> (r: i32)
    ensures
        r == (flags | O_NONBLOCK),
        r & O_NONBLOCK == O_NONBLOCK,
{
    proof {
        assert((flags | 2048i32) & 2048i32 == 2048i32) by (bit_vector);
    }
    flags | O_NONBLOCK
}

/// Why an operation failed: either the caller handed over an interface name
/// that cannot fit the kernel's fixed name buffer, or a kernel call reported
/// an error code.
#[derive(Clone, Copy, Debug, PartialEq, Eq, Structural)]
pub enum PacketError {
    /// The input was rejected locally, before any kernel call was made.
    InvalidInput,
    /// The kernel reported this error code.
    Os(i32),
}

/// Interprets the return code of a kernel call that signals failure by
/// returning -1 and leaving the error code in `errno`.
pub fn check_rc(rc: i32, errno: i32) -> (r: Result<(), PacketError>)
    ensures
        rc == -1 <==> r == Err::<(), PacketError>(PacketError::Os(errno)),
        rc != -1 <==> r == Ok::<(), PacketError>(()),
{
    if rc == -1 {
        Err(PacketError::Os(errno))
    } else {
        Ok(())
    }
}

} // verus!
