//! How key-value blocks pass from rank to rank.
use crate::error::{Fault, Result, SparkError};
use crate::plan::Place;
use crate::program::{Step, StepView};
use crate::text;
use crate::text::Text;
use vstd::prelude::*;

verus! {

/// The step or the error that a transport answers with.
pub open spec fn transfer(r: Result<Step>) -> core::result::Result<StepView, Fault> {
    match r {
        Ok(s) => Ok(s@),
        Err(e) => Err(e@),
    }
}

/// Communication backend abstraction for ring attention.
pub trait RingTransport {
    /// The number of ranks.
    spec fn ranks(&self) -> u32;

    /// The number of this rank.
    spec fn own_rank(&self) -> u32;

    /// What passes one buffer on and fills another.
    spec fn exchange(
        &self,
        send: Place,
        send_len: int,
        recv: Place,
        recv_len: int,
        send_to: int,
        recv_from: int,
    ) -> core::result::Result<StepView, Fault>;

    /// The number of ranks.
    fn world_size(&self) -> (r: u32)
        ensures
            r == self.ranks(),
    ;

    /// The number of this rank.
    fn rank(&self) -> (r: u32)
        ensures
            r == self.own_rank(),
    ;

    /// The step that sends the BF16 elements of `send` to rank `send_to` and receives into
    /// `recv` from rank `recv_from`.
    fn send_recv_bf16(
        &self,
        send: Place,
        send_len: u64,
        recv: Place,
        recv_len: u64,
        send_to: u32,
        recv_from: u32,
    ) -> (r: Result<Step>)
        ensures
            transfer(r) == self.exchange(
                send,
                send_len as int,
                recv,
                recv_len as int,
                send_to as int,
                recv_from as int,
            ),
    ;
}

/// Trivial single-GPU transport: what is sent is copied into the receiving buffer, whatever the
/// ranks.
pub struct LoopbackTransport {
    pub world_size: u32,
    pub rank: u32,
}

impl RingTransport for LoopbackTransport {
    open spec fn ranks(&self) -> u32 {
        self.world_size
    }

    open spec fn own_rank(&self) -> u32 {
        self.rank
    }

    open spec fn exchange(
        &self,
        send: Place,
        send_len: int,
        recv: Place,
        recv_len: int,
        send_to: int,
        recv_from: int,
    ) -> core::result::Result<StepView, Fault> {
        Ok(StepView::Copy { from: send, to: recv, len: send_len })
    }

    fn world_size(&self) -> (r: u32) {
        self.world_size
    }

    fn rank(&self) -> (r: u32) {
        self.rank
    }

    fn send_recv_bf16(
        &self,
        send: Place,
        send_len: u64,
        recv: Place,
        recv_len: u64,
        send_to: u32,
        recv_from: u32,
    ) -> (r: Result<Step>) {
        Ok(Step::Copy { from: send, to: recv, len: send_len })
    }
}

/// A call into the communication library.
#[derive(Debug, Clone, Copy, PartialEq, Eq, Structural)]
pub enum NcclCall {
    /// Joins a communicator.
    FromRank,
    /// Makes an identifier for a new communicator.
    NewId,
    /// Adds up the buffers of all ranks.
    AllReduce,
    /// Opens a group of calls.
    GroupStart,
    /// Sends a buffer.
    Send,
    /// Receives a buffer.
    Recv,
    /// Closes a group of calls.
    GroupEnd,
}

impl NcclCall {
    /// How the call is named in messages.
    pub open spec fn named(self) -> Seq<char> {
        match self {
            NcclCall::FromRank => "Comm::from_rank"@,
            NcclCall::NewId => "Id::new"@,
            NcclCall::AllReduce => "all_reduce"@,
            NcclCall::GroupStart => "group_start"@,
            NcclCall::Send => "send"@,
            NcclCall::Recv => "recv"@,
            NcclCall::GroupEnd => "group_end"@,
        }
    }

    fn name(self) -> (r: &'static str)
        ensures
            r@ == self.named(),
    {
        match self {
            NcclCall::FromRank => "Comm::from_rank",
            NcclCall::NewId => "Id::new",
            NcclCall::AllReduce => "all_reduce",
            NcclCall::GroupStart => "group_start",
            NcclCall::Send => "send",
            NcclCall::Recv => "recv",
            NcclCall::GroupEnd => "group_end",
        }
    }

    /// The error for a call that failed, with what the library reported.
    pub fn error(self, report: &str) -> (r: SparkError)
        ensures
            r@ == Fault::Other("nccl "@ + self.named() + ": "@ + report@),
    {
        SparkError::Other(Text::new("nccl ").s(self.name()).s(": ").s(report).done())
    }
}

/// Transport between processes: as many elements are received as are sent.
pub struct NcclTransport {
    pub world_size: u32,
    pub rank: u32,
}

impl RingTransport for NcclTransport {
    open spec fn ranks(&self) -> u32 {
        self.world_size
    }

    open spec fn own_rank(&self) -> u32 {
        self.rank
    }

    open spec fn exchange(
        &self,
        send: Place,
        send_len: int,
        recv: Place,
        recv_len: int,
        send_to: int,
        recv_from: int,
    ) -> core::result::Result<StepView, Fault> {
        if recv_len != send_len {
            Err(
                Fault::InvalidArgument(
                    "nccl send_recv_bf16 length mismatch: send="@ + text::decimal(send_len)
                        + " recv="@ + text::decimal(recv_len),
                ),
            )
        } else {
            Ok(StepView::Exchange { from: send, to: recv, len: send_len, send_to, recv_from })
        }
    }

    fn world_size(&self) -> (r: u32) {
        self.world_size
    }

    fn rank(&self) -> (r: u32) {
        self.rank
    }

    fn send_recv_bf16(
        &self,
        send: Place,
        send_len: u64,
        recv: Place,
        recv_len: u64,
        send_to: u32,
        recv_from: u32,
    ) -> (r: Result<Step>) {
        if recv_len != send_len {
            return Text::new("nccl send_recv_bf16 length mismatch: send=").n(send_len).s(" recv=")
                .n(recv_len).refuse();
        }
        Ok(Step::Exchange { from: send, to: recv, len: send_len, send_to, recv_from })
    }
}

} // verus!
