use vstd::prelude::*;

verus! {

/// One classifier rule as the caller states it: opcode, the two jump
/// offsets, and the operand.
pub type Filter = (u16, u8, u8, u32);

/// An ordered classifier program. Instructions refer to each other by
/// relative jump offsets, so the order is significant.
pub type FilterProgram = Vec<Filter>;

/// One classifier instruction in the layout the kernel expects: a 16-bit
/// opcode, two 8-bit jump offsets, and a 32-bit operand.
#[derive(Clone, Copy, Debug, PartialEq, Eq, Structural)]
pub struct SockFilter {
    pub code: u16,
    pub jt: u8,
    pub jf: u8,
    pub k: u32,
}

/// What converting one rule yields: the four fields carried over in order.
pub open spec fn filter_of(f: Filter) -> SockFilter {
    SockFilter { code: f.0, jt: f.1, jf: f.2, k: f.3 }
}

impl From<Filter> for SockFilter {
    fn from(f: Filter) -> (r: SockFilter) {
        SockFilter { code: f.0, jt: f.1, jf: f.2, k: f.3 }
    }
}

impl vstd::std_specs::convert::FromSpecImpl<Filter> for SockFilter {
    open spec fn obeys_from_spec() -> bool {
        true
    }

    open spec fn from_spec(f: Filter) -> SockFilter {
        filter_of(f)
    }
}

/// The socket level on which a classifier program is attached.
pub const SOL_SOCKET: i32 = 1;

/// The socket option that attaches a classifier program.
pub const SO_ATTACH_FILTER: i32 = 26;

/// The classifier-attach control message: the level and option it goes to,
/// the instruction count as the kernel's program header states it, and the
/// instruction array itself.
pub struct FilterAttachRequest {
    pub level: i32,
    pub optname: i32,
    pub count: u16,
    pub instructions: Vec<SockFilter>,
}

/// Converts a filter program into the kernel's fixed-layout instruction
/// array, one entry per rule with the rule's fields in order, and packages
/// it with its instruction count.
pub fn build_filter_attach(prog: &FilterProgram) -> (r: FilterAttachRequest)
    ensures
        r.level == SOL_SOCKET,
        r.optname == SO_ATTACH_FILTER,
        r.instructions@.len() == prog@.len(),
        forall|i: int| 0 <= i < prog@.len() ==> r.instructions@[i] == filter_of(prog@[i]),
        r.count == prog@.len() as u16,
{
    let mut instructions: Vec<SockFilter> = Vec::new();
    let mut i: usize = 0;
    while i < prog.len()
        invariant
            i <= prog@.len(),
            instructions@.len() == i,
            forall|j: int| 0 <= j < i ==> instructions@[j] == filter_of(prog@[j]),
        decreases prog@.len() - i,
    {
        instructions.push(SockFilter::from(prog[i]));
        i += 1;
    }
    let count: u16 = #[verifier::truncate] (instructions.len() as u16);
    FilterAttachRequest { level: SOL_SOCKET, optname: SO_ATTACH_FILTER, count, instructions }
}

} // verus!
