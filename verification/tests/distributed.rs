use sm121_kernels::distributed::{
    ring_attention_bf16, ring_attention_bf16_distributed, LoopbackTransport, NcclCall,
    NcclTransport, RingTransport,
};
use sm121_kernels::error::SparkError;
use sm121_kernels::plan::{Arg, Launch, Place, F32};
use sm121_kernels::program::{Program, Step};

fn scale() -> F32 {
    F32 { bits: 0.125f32.to_bits() }
}

fn launches(p: &Program) -> Vec<&Launch> {
    p.steps
        .iter()
        .filter_map(|s| match s {
            Step::Launch(l) => Some(l),
            _ => None,
        })
        .collect()
}

#[test]
fn loopback_copies_what_is_sent() {
    let t = LoopbackTransport { world_size: 4, rank: 1 };
    assert_eq!((t.world_size(), t.rank()), (4, 1));
    let s = t.send_recv_bf16(Place::scratch(0), 10, Place::scratch(2), 10, 2, 0).unwrap();
    assert_eq!(s, Step::Copy { from: Place::scratch(0), to: Place::scratch(2), len: 10 });
}

#[test]
fn exchange_needs_equal_lengths() {
    let t = NcclTransport { world_size: 2, rank: 0 };
    let s = t.send_recv_bf16(Place::scratch(0), 10, Place::scratch(2), 10, 1, 1).unwrap();
    assert_eq!(
        s,
        Step::Exchange {
            from: Place::scratch(0),
            to: Place::scratch(2),
            len: 10,
            send_to: 1,
            recv_from: 1
        }
    );
    assert_eq!(
        t.send_recv_bf16(Place::scratch(0), 10, Place::scratch(2), 9, 1, 1),
        Err(SparkError::InvalidArgument(
            "nccl send_recv_bf16 length mismatch: send=10 recv=9".into()
        ))
    );
}

#[test]
fn failed_calls_are_named() {
    assert_eq!(
        NcclCall::FromRank.error("NcclError(3)"),
        SparkError::Other("nccl Comm::from_rank: NcclError(3)".into())
    );
    assert_eq!(NcclCall::NewId.error("x").message(), "nccl Id::new: x");
    assert_eq!(NcclCall::AllReduce.error("x").message(), "nccl all_reduce: x");
    assert_eq!(NcclCall::GroupStart.error("x").message(), "nccl group_start: x");
    assert_eq!(NcclCall::Send.error("x").message(), "nccl send: x");
    assert_eq!(NcclCall::Recv.error("x").message(), "nccl recv: x");
    assert_eq!(NcclCall::GroupEnd.error("x").message(), "nccl group_end: x");
}

#[test]
fn ring_on_one_device_computes_every_chunk_and_combines() {
    let n = 2 * 128 * 128;
    let p = ring_attention_bf16(n, n, n, n, 1, 2, 128, 128, scale(), 4);
    assert!(p.end.is_ok());
    let l = launches(&p);
    assert_eq!(l.len(), 5);
    assert_eq!(l[4].kernel, "flash_decoding_combine");
    for (i, chunk) in l[..4].iter().enumerate() {
        assert!(chunk.args.ends_with(&[Arg::Word(4), Arg::Word(i as u32)]));
    }
}

#[test]
fn ring_across_ranks_visits_every_block() {
    let n = 2 * 64 * 128;
    for rank in 0..3u32 {
        let t = NcclTransport { world_size: 3, rank };
        let p = ring_attention_bf16_distributed(&t, n, n, n, n, 1, 2, 64, 64, scale());
        assert!(p.end.is_ok());
        let rows = 2 * 64;
        let mut owners: Vec<u32> = vec![];
        for (step, l) in
            launches(&p).iter().filter(|l| l.kernel == "fa_bf16_v3_split_kv").enumerate()
        {
            // The whole block at hand, and the rows of its owner.
            assert_eq!(l.args[5], Arg::Word(64));
            assert_eq!(l.args[10..], [Arg::Word(1), Arg::Word(0)]);
            let block = if step % 2 == 0 { 0 } else { 2 };
            assert_eq!(l.args[1], Arg::Buffer(Place::scratch(block)));
            assert_eq!(l.args[2], Arg::Buffer(Place::scratch(block + 1)));
            let owner = (rank + 3 - step as u32) % 3;
            let at = |scratch, start| Arg::Buffer(Place::within_scratch(scratch, start));
            assert_eq!(l.args[3], at(4, owner as u64 * rows * 128));
            assert_eq!(l.args[9], at(5, owner as u64 * rows));
            owners.push(owner);
        }
        assert_eq!(owners[0], rank);
        owners.sort();
        assert_eq!(owners, vec![0, 1, 2]);
        let l = launches(&p);
        let last = l[l.len() - 1];
        assert_eq!(last.kernel, "flash_decoding_combine");
        assert_eq!(last.args[6], Arg::Word(3));
        assert_eq!(p.steps.len(), 3 * 3 + 7);
        let exchanges: Vec<(u32, u32)> = p
            .steps
            .iter()
            .filter_map(|s| match s {
                Step::Exchange { send_to, recv_from, .. } => Some((*send_to, *recv_from)),
                _ => None,
            })
            .collect();
        assert_eq!(exchanges, vec![((rank + 1) % 3, (rank + 2) % 3); 4]);
    }
}
