//! The values that cross the facade: queue descriptors, queue tokens,
//! scatter-gather arrays and queue results.
//!
//! A pointer of the C interface is held as its address; address 0 is the null
//! pointer.

use crate::net::SockAddr;
use vstd::prelude::*;

verus! {

/// A queue descriptor: names one I/O queue, a socket or a memory pipe.
#[derive(Clone, Copy, Debug, PartialEq, Eq, Hash)]
pub struct QDesc(pub i32);

/// A queue token: names one asynchronous operation in flight.
#[derive(Clone, Copy, Debug, PartialEq, Eq, Hash)]
pub struct QToken(pub u64);

impl From<i32> for QDesc {
    fn from(value: i32) -> (qd: QDesc) {
        QDesc(value)
    }
}

impl vstd::std_specs::convert::FromSpecImpl<i32> for QDesc {
    open spec fn obeys_from_spec() -> bool {
        true
    }

    open spec fn from_spec(value: i32) -> QDesc {
        QDesc(value)
    }
}

impl From<QDesc> for i32 {
    fn from(qd: QDesc) -> (value: i32) {
        qd.0
    }
}

impl vstd::std_specs::convert::FromSpecImpl<QDesc> for i32 {
    open spec fn obeys_from_spec() -> bool {
        true
    }

    open spec fn from_spec(qd: QDesc) -> i32 {
        qd.0
    }
}

impl From<u64> for QToken {
    fn from(value: u64) -> (qt: QToken) {
        QToken(value)
    }
}

impl vstd::std_specs::convert::FromSpecImpl<u64> for QToken {
    open spec fn obeys_from_spec() -> bool {
        true
    }

    open spec fn from_spec(value: u64) -> QToken {
        QToken(value)
    }
}

impl From<QToken> for u64 {
    fn from(qt: QToken) -> (value: u64) {
        qt.0
    }
}

impl vstd::std_specs::convert::FromSpecImpl<QToken> for u64 {
    open spec fn obeys_from_spec() -> bool {
        true
    }

    open spec fn from_spec(qt: QToken) -> u64 {
        qt.0
    }
}

/// A queue token as the C interface carries it.
#[allow(non_camel_case_types)]
pub type demi_qtoken_t = u64;

/// The number of segments that a scatter-gather array holds inline.
pub const DEMI_SGARRAY_MAXLEN: usize = 1;

/// One segment of a scatter-gather array.
#[allow(non_camel_case_types)]
#[derive(Clone, Copy, Debug, PartialEq, Eq)]
pub struct demi_sgaseg_t {
    /// Address of the segment's first byte.
    pub sgaseg_buf: usize,
    /// Length of the segment in bytes.
    pub sgaseg_len: u32,
}

/// A scatter-gather array: a buffer, its segments, and the address of the peer
/// that the data came from or goes to.
#[allow(non_camel_case_types)]
#[derive(Clone, Copy, Debug, PartialEq, Eq)]
pub struct demi_sgarray_t {
    /// Address of the underlying buffer.
    pub sga_buf: usize,
    /// How many of the segments are in use.
    pub sga_numsegs: u32,
    /// The segments.
    pub sga_segs: [demi_sgaseg_t; 1],
    /// The peer's socket address.
    pub sga_addr: SockAddr,
}

/// What kind of operation a queue result reports.
#[allow(non_camel_case_types)]
#[derive(Clone, Copy, Debug, PartialEq, Eq)]
pub enum demi_opcode_t {
    /// No operation.
    DEMI_OPC_INVALID,
    /// A push completed.
    DEMI_OPC_PUSH,
    /// A pop completed.
    DEMI_OPC_POP,
    /// An accept completed.
    DEMI_OPC_ACCEPT,
    /// A connect completed.
    DEMI_OPC_CONNECT,
    /// The operation failed.
    DEMI_OPC_FAILED,
}

/// What a completed accept hands over.
#[allow(non_camel_case_types)]
#[derive(Clone, Copy, Debug, PartialEq, Eq)]
pub struct demi_accept_result_t {
    /// The queue descriptor of the accepted connection.
    pub qd: i32,
    /// The address of the peer.
    pub addr: SockAddr,
}

/// The part of a queue result that depends on the operation.
#[allow(non_camel_case_types)]
#[derive(Clone, Copy, Debug, PartialEq, Eq)]
pub enum demi_qr_value_t {
    /// Nothing more: a push or a connect.
    Empty,
    /// The data that a pop received; its `sga_addr` is the sender.
    Sga(demi_sgarray_t),
    /// The connection that an accept produced.
    Ares(demi_accept_result_t),
    /// The error number of a failed operation.
    Errno(i32),
}

/// A queue result: how one asynchronous operation ended.
#[allow(non_camel_case_types)]
#[derive(Clone, Copy, Debug, PartialEq, Eq)]
pub struct demi_qresult_t {
    /// The kind of operation.
    pub qr_opcode: demi_opcode_t,
    /// The queue that the operation ran on.
    pub qr_qd: u32,
    /// The token of the operation.
    pub qr_qt: demi_qtoken_t,
    /// The operation's own result.
    pub qr_value: demi_qr_value_t,
}

/// The scatter-gather array that stands for "no array": null buffer, no
/// segment, zeroed address.
pub open spec fn null_sgarray() -> demi_sgarray_t {
    demi_sgarray_t {
        sga_buf: 0,
        sga_numsegs: 0,
        sga_segs: [demi_sgaseg_t { sgaseg_buf: 0, sgaseg_len: 0 }],
        sga_addr: SockAddr {
            sa_family: 0,
            sa_data: [0u8, 0u8, 0u8, 0u8, 0u8, 0u8, 0u8, 0u8, 0u8, 0u8, 0u8, 0u8, 0u8, 0u8],
        },
    }
}

impl demi_sgarray_t {
    /// The null scatter-gather array.
    pub fn null() -> (sga: demi_sgarray_t)
        ensures
            sga == null_sgarray(),
    {
        demi_sgarray_t {
            sga_buf: 0,
            sga_numsegs: 0,
            sga_segs: [demi_sgaseg_t { sgaseg_buf: 0, sgaseg_len: 0 }],
            sga_addr: SockAddr {
                sa_family: 0,
                sa_data: [0, 0, 0, 0, 0, 0, 0, 0, 0, 0, 0, 0, 0, 0],
            },
        }
    }
}

} // verus!
