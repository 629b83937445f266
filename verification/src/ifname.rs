use vstd::prelude::*;
use crate::PacketError;

verus! {

/// The kernel's fixed capacity for an interface name, in bytes.
pub const IFNAMSIZ: usize = 16;

/// Prepares the zero-padded, fixed-size buffer that the kernel's
/// name-to-index query reads. A name longer than the buffer is rejected
/// locally, before any kernel call is made.
pub fn ifname_buffer(name: &[u8]) -> (r: Result<Vec<u8>, PacketError>)
    ensures
        r is Err <==> name@.len() > IFNAMSIZ,
        r is Err ==> r == Err::<Vec<u8>, PacketError>(PacketError::InvalidInput),
        r is Ok ==> r->Ok_0@.len() == IFNAMSIZ,
        r is Ok ==> forall|i: int| 0 <= i < name@.len() ==> r->Ok_0@[i] == name@[i],
        r is Ok ==> forall|i: int| name@.len() <= i < IFNAMSIZ ==> r->Ok_0@[i] == 0u8,
{
    if name.len() > IFNAMSIZ {
        return Err(PacketError::InvalidInput);
    }
    let mut buf: Vec<u8> = Vec::new();
    let mut i: usize = 0;
    while i < name.len()
        invariant
            i <= name@.len() <= IFNAMSIZ,
            buf@.len() == i,
            forall|j: int| 0 <= j < i ==> buf@[j] == name@[j],
        decreases name@.len() - i,
    {
        buf.push(name[i]);
        i += 1;
    }
    while buf.len() < IFNAMSIZ
        invariant
            name@.len() <= buf@.len() <= IFNAMSIZ,
            forall|j: int| 0 <= j < name@.len() ==> buf@[j] == name@[j],
            forall|j: int| name@.len() <= j < buf@.len() ==> buf@[j] == 0u8,
        decreases IFNAMSIZ - buf@.len(),
    {
        buf.push(0u8);
    }
    Ok(buf)
}

/// Interprets the outcome of the kernel's name-to-index query: a zero index
/// means the lookup failed and the error code says why; any other result
/// identifies the interface.
pub fn resolve_index(raw: u32, errno: i32) -> (r: Result<i32, PacketError>)
    ensures
        raw == 0 <==> r == Err::<i32, PacketError>(PacketError::Os(errno)),
        raw != 0 ==> r == Ok::<i32, PacketError>(raw as i32),
{
    if raw == 0 {
        Err(PacketError::Os(errno))
    } else {
        Ok(#[verifier::truncate] (raw as i32))
    }
}

} // verus!
