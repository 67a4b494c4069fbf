//! Distributed primitives: ring attention on one GPU and across ranks.
pub mod ring_attention;
pub mod ring_attention_distributed;
pub mod ring_coverage;
pub mod ring_exchange;
pub mod ring_meaning;
pub mod ring_memory;
pub mod ring_ranks;
pub mod transport;

pub use ring_attention::ring_attention_bf16;
pub use ring_attention_distributed::ring_attention_bf16_distributed;
pub use transport::{LoopbackTransport, NcclCall, NcclTransport, RingTransport};
