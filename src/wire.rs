//! The fixed-size failure report that a child whose exec failed sends to its
//! parent: the error code as a big-endian `i32`, then a four-byte footer.
use vstd::prelude::*;

verus! {

/// Footer that marks a message on the error-report channel as a launch
/// failure ("NOEX").
pub const EXECERR_MSG_FOOTER: [u8; 4] = [0x4e, 0x4f, 0x45, 0x58];

/// Length in bytes of a failure report.
pub const EXECERR_MSG_LEN: usize = 8;

pub open spec fn footer() -> Seq<u8> {
    seq![0x4eu8, 0x4fu8, 0x45u8, 0x58u8]
}

/// The two's-complement bit pattern of `e`, read as an unsigned 32-bit number.
pub open spec fn unsigned_of(e: i32) -> int {
    if e >= 0 {
        e as int
    } else {
        e + 0x1_0000_0000
    }
}

/// The four bytes of `e`, most significant first.
pub open spec fn be_bytes(e: i32) -> Seq<u8> {
    let u = unsigned_of(e);
    seq![
        (u / 0x100_0000) as u8,
        (u / 0x1_0000 % 0x100) as u8,
        (u / 0x100 % 0x100) as u8,
        (u % 0x100) as u8,
    ]
}

/// The unsigned number that the first four bytes of `b` spell, most
/// significant first.
pub open spec fn be_value(b: Seq<u8>) -> int {
    b[0] * 0x100_0000 + b[1] * 0x1_0000 + b[2] * 0x100 + b[3]
}

/// The signed 32-bit number whose bit pattern is `be_value(b)`.
pub open spec fn be_i32(b: Seq<u8>) -> int {
    let v = be_value(b);
    if v < 0x8000_0000 {
        v
    } else {
        v - 0x1_0000_0000
    }
}

/// The failure report that carries error code `e`.
pub open spec fn execerr_message(e: i32) -> Seq<u8> {
    be_bytes(e) + footer()
}

/// The error code that the report `b` carries, or `None` where `b` is not a
/// failure report.
pub open spec fn execerr_code(b: Seq<u8>) -> Option<i32> {
    if b.len() == 8 && b.subrange(4, 8) == footer() {
        Some(be_i32(b) as i32)
    } else {
        None
    }
}

/// Builds the failure report for error code `errno`.
pub fn encode_execerr_msg(errno: i32) -> (r: [u8; 8])
    ensures
        r@ == execerr_message(errno),
{
    let u: u32 = if errno >= 0 {
        errno as u32
    } else {
        (errno as i64 + 0x1_0000_0000i64) as u32
    };
    let r: [u8; 8] = [
        (u / 0x100_0000) as u8,
        (u / 0x1_0000 % 0x100) as u8,
        (u / 0x100 % 0x100) as u8,
        (u % 0x100) as u8,
        EXECERR_MSG_FOOTER[0],
        EXECERR_MSG_FOOTER[1],
        EXECERR_MSG_FOOTER[2],
        EXECERR_MSG_FOOTER[3],
    ];
    assert(r@ =~= execerr_message(errno));
    r
}

/// Reads a failure report: the error code it carries, or `None` where its
/// footer is not `EXECERR_MSG_FOOTER`.
pub fn decode_execerr_msg(bytes: &[u8; 8]) -> (r: Option<i32>)
    ensures
        r == execerr_code(bytes@),
{
    if bytes[4] != EXECERR_MSG_FOOTER[0] || bytes[5] != EXECERR_MSG_FOOTER[1]
        || bytes[6] != EXECERR_MSG_FOOTER[2] || bytes[7] != EXECERR_MSG_FOOTER[3] {
        assert(bytes@.subrange(4, 8)[0] == bytes@[4]);
        return None;
    }
    assert(bytes@.subrange(4, 8) =~= footer());
    let b0: u32 = bytes[0] as u32;
    let b1: u32 = bytes[1] as u32;
    let b2: u32 = bytes[2] as u32;
    let b3: u32 = bytes[3] as u32;
    let v: u32 = b0 * 0x100_0000 + b1 * 0x1_0000 + b2 * 0x100 + b3;
    let e: i32 = if v < 0x8000_0000 {
        v as i32
    } else {
        (v as i64 - 0x1_0000_0000i64) as i32
    };
    Some(e)
}

/// A failure report, once read, gives back the error code it was built from.
pub proof fn lemma_execerr_round_trip(e: i32)
    ensures
        execerr_code(execerr_message(e)) == Some(e),
{
    let m = execerr_message(e);
    assert(m.subrange(4, 8) =~= footer());
    let u = unsigned_of(e);
    let q0 = u / 0x100_0000;
    let q1 = u / 0x1_0000 % 0x100;
    let q2 = u / 0x100 % 0x100;
    let q3 = u % 0x100;
    assert(0 <= u < 0x1_0000_0000);
    assert(q0 * 0x100_0000 + q1 * 0x1_0000 + q2 * 0x100 + q3 == u) by (nonlinear_arith)
        requires
            q0 == u / 0x100_0000,
            q1 == u / 0x1_0000 % 0x100,
            q2 == u / 0x100 % 0x100,
            q3 == u % 0x100,
            0 <= u,
    {
        assert(u / 0x1_0000 == (u / 0x100_0000) * 0x100 + u / 0x1_0000 % 0x100);
    }
    assert(0 <= q0 < 0x100);
    assert(be_value(m) == u);
}

/// The failure report that carries a given code is the only message that
/// reads as that code.
pub proof fn lemma_execerr_unique(b: Seq<u8>, e: i32)
    requires
        execerr_code(b) == Some(e),
    ensures
        b == execerr_message(e),
{
    let v = be_value(b);
    assert(0 <= v < 0x1_0000_0000) by (nonlinear_arith)
        requires
            v == b[0] * 0x100_0000 + b[1] * 0x1_0000 + b[2] * 0x100 + b[3],
            0 <= b[0] < 0x100,
            0 <= b[1] < 0x100,
            0 <= b[2] < 0x100,
            0 <= b[3] < 0x100,
    ;
    assert(unsigned_of(e) == v);
    let m = execerr_message(e);
    assert(m[0] == b[0] && m[1] == b[1] && m[2] == b[2] && m[3] == b[3]) by (nonlinear_arith)
        requires
            v == b[0] * 0x100_0000 + b[1] * 0x1_0000 + b[2] * 0x100 + b[3],
            0 <= b[0] < 0x100,
            0 <= b[1] < 0x100,
            0 <= b[2] < 0x100,
            0 <= b[3] < 0x100,
            m[0] == (v / 0x100_0000) as u8,
            m[1] == (v / 0x1_0000 % 0x100) as u8,
            m[2] == (v / 0x100 % 0x100) as u8,
            m[3] == (v % 0x100) as u8,
    ;
    assert(b.subrange(4, 8) == footer());
    assert(b =~= m) by {
        assert(b[4] == b.subrange(4, 8)[0]);
        assert(b[5] == b.subrange(4, 8)[1]);
        assert(b[6] == b.subrange(4, 8)[2]);
        assert(b[7] == b.subrange(4, 8)[3]);
    }
}

} // verus!
