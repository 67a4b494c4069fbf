use sm121_kernels::attention::dsa::{
    dsa_attention_bf16, dsa_indexer_score_bf16, dsa_sizes_fit, dsa_sparse_attention_bf16,
    indexer_sizes_fit, select_positions, SparseStage,
};
use sm121_kernels::attention::ranking::rank;
use sm121_kernels::attention::tiles::{gather, is_covered, place, query, SparseShape};
use sm121_kernels::dialogue::{Action, Event};
use sm121_kernels::error::{DriverError, SparkError};
use sm121_kernels::plan::{Arg, Place, Slot, F32};
use sm121_kernels::program::{Elem, Step};

fn f(x: f32) -> F32 {
    F32 { bits: x.to_bits() }
}

fn shape() -> SparseShape {
    SparseShape {
        batch: 2,
        seq_q: 2,
        seq_kv_full: 3,
        num_heads: 2,
        num_kv_heads: 1,
        topk: 2,
        scale: f(0.5),
    }
}

#[test]
fn positions_are_ranked_by_score() {
    let scores = vec![f(0.0), f(3.0), f(-1.0), f(3.0), f(f32::NEG_INFINITY), f(-0.0), f(0.5)];
    assert_eq!(rank(&scores, 0, 7), vec![1, 3, 6, 0, 5, 2, 4]);
    assert_eq!(rank(&scores, 2, 3), vec![1, 0, 2]);
    assert_eq!(rank(&scores, 7, 0), Vec::<u32>::new());
}

#[test]
fn best_positions_are_selected_per_query() {
    let scores = vec![f(1.0), f(2.0), f(3.0), f(9.0), f(7.0), f(8.0)];
    assert_eq!(select_positions(&scores, 2, 3, 2), vec![2, 1, 0, 2]);
    assert_eq!(select_positions(&scores, 1, 3, 5), vec![2, 1, 0, 0, 0]);
    assert_eq!(select_positions(&scores, 2, 3, 0), Vec::<i32>::new());
}

#[test]
fn tiles_repeat_key_heads_and_keep_rows() {
    let s = shape();
    // Batch 2, three positions, one key head: element e of row r holds r * 1000 + e.
    let kv: Vec<u16> = (0..6u16).flat_map(|r| (0..128u16).map(move |e| r * 1000 + e)).collect();
    let indices = vec![2, 0, 1, 1, 0, 2, 2, 1];
    let tile = gather(s, &kv, &indices, 2);
    assert_eq!(tile.len(), 2 * 2 * 128);
    // Query 2 belongs to batch 1: positions 0 and 2 are rows 3 and 5.
    assert_eq!(tile[0], 3000);
    assert_eq!(tile[127], 3127);
    assert_eq!(tile[128], 5000);
    assert_eq!(tile[256], 3000);
    assert_eq!(tile[511], 5127);
    let q: Vec<u16> = (0..4 * 256u16).collect();
    assert_eq!(query(s, &q, 1)[0], 256);
    assert_eq!(query(s, &q, 3)[255], 1023);
    let mut out = vec![0u16; 4 * 256];
    place(s, &mut out, &vec![7u16; 256], 1);
    assert_eq!(query(s, &out, 1), vec![7u16; 256]);
    assert_eq!(query(s, &out, 0), vec![0u16; 256]);
    assert_eq!(query(s, &out, 2), vec![0u16; 256]);
}

#[test]
fn positions_outside_the_cache_are_noticed() {
    let s = shape();
    let inside = vec![2, 0, 1, 1, 0, 2, 2, 1];
    assert!(is_covered(s, &inside, 6 * 128));
    assert!(!is_covered(s, &inside, 6 * 128 - 1));
    assert!(!is_covered(s, &vec![2, 0, 1, 1, 0, 3, 2, 1], 6 * 128));
    assert!(!is_covered(s, &vec![2, 0, -1, 1, 0, 2, 2, 1], 6 * 128));
}

#[test]
fn indexer_takes_one_block_per_query_and_tile() {
    let l = dsa_indexer_score_bf16(4 * 4096, 600 * 128, 128, 1200, 2, 2, 300).unwrap();
    assert_eq!((l.kernel, l.entry), ("dsa_indexer_bf16", "dsa_indexer_score_bf16"));
    assert_eq!(l.grid, (4, 3, 1));
    assert_eq!(l.block, (128, 1, 1));
    assert_eq!(l.shared_mem, 8320);
    assert_eq!(l.args[4..], [Arg::Word(2), Arg::Word(300)]);
    assert_eq!(
        dsa_indexer_score_bf16(4 * 4096, 600 * 128, 127, 1200, 2, 2, 300),
        Err(SparkError::InvalidArgument("weights too small: 127 < 128".into()))
    );
    assert!(indexer_sizes_fit(2, 2, 300));
    assert!(indexer_sizes_fit(0, u32::MAX, u32::MAX));
    assert!(!indexer_sizes_fit(1 << 16, 1 << 10, 1));
}

#[test]
fn sparse_attention_refuses_bad_dimensions() {
    let (_, a) = dsa_sparse_attention_bf16(0, 1, 1, 1, 1, 1, f(1.0));
    assert_eq!(
        a,
        Action::Finish(Err(SparkError::InvalidArgument(
            "batch / seq_q / seq_kv_full / num_heads / topk must be > 0".into()
        )))
    );
    for kv_heads in [0, 2] {
        let (_, a) = dsa_sparse_attention_bf16(1, 1, 1, 3, kv_heads, 1, f(1.0));
        assert_eq!(
            a,
            Action::Finish(Err(SparkError::InvalidArgument(
                "num_heads must be divisible by num_kv_heads".into()
            )))
        );
    }
}

#[test]
fn sparse_attention_serves_the_queries_in_turn() {
    let s = shape();
    let (mut run, a) = dsa_sparse_attention_bf16(2, 2, 3, 2, 1, 2, f(0.5));
    assert_eq!(
        a,
        Action::ReadIndices { slot: Slot::Param(3), failure: "dtoh top_k_indices: " }
    );
    assert!(!run.can_accept(&Event::Done));
    assert!(!run.can_accept(&Event::Indices(vec![0; 7])));
    let a = run.next(Event::Indices(vec![2, 0, 1, 1, 0, 2, 2, 1]));
    assert_eq!(
        a,
        Action::Run(Step::Alloc {
            scratch: 0,
            elem: Elem::U16,
            len: 512,
            failure: Some("alloc k_gather: ")
        })
    );
    for (scratch, len, failure) in
        [(1, 512, "alloc v_gather: "), (2, 256, "alloc q_one: "), (3, 256, "alloc o_one: ")]
    {
        assert_eq!(
            run.next(Event::Done),
            Action::Run(Step::Alloc { scratch, elem: Elem::U16, len, failure: Some(failure) })
        );
    }
    assert_eq!(
        run.next(Event::Done),
        Action::ReadHalves { slot: Slot::Param(0), failure: "dtoh q: " }
    );
    let q: Vec<u16> = (0..4 * 256u16).collect();
    assert_eq!(
        run.next(Event::Halves(q.clone())),
        Action::ReadHalves { slot: Slot::Param(1), failure: "dtoh k: " }
    );
    let k: Vec<u16> = (0..6 * 128u16).collect();
    let v: Vec<u16> = (0..6 * 128u16).map(|x| x + 2000).collect();
    assert!(!run.can_accept(&Event::Halves(vec![0; 6 * 128 - 1])));
    assert_eq!(
        run.next(Event::Halves(k.clone())),
        Action::ReadHalves { slot: Slot::Param(2), failure: "dtoh v: " }
    );
    let mut a = run.next(Event::Halves(v.clone()));
    let indices = vec![2, 0, 1, 1, 0, 2, 2, 1];
    for p in 0..4u32 {
        assert_eq!(
            a,
            Action::WriteHalves {
                slot: Slot::Scratch(2),
                data: query(s, &q, p),
                failure: "htod q_one: "
            }
        );
        assert_eq!(
            run.next(Event::Done),
            Action::WriteHalves {
                slot: Slot::Scratch(0),
                data: gather(s, &k, &indices, p),
                failure: "htod k_gh: "
            }
        );
        assert_eq!(
            run.next(Event::Done),
            Action::WriteHalves {
                slot: Slot::Scratch(1),
                data: gather(s, &v, &indices, p),
                failure: "htod v_gh: "
            }
        );
        match run.next(Event::Done) {
            Action::Run(Step::Launch(l)) => {
                assert_eq!(l.kernel, "fa_bf16_d128");
                assert_eq!(l.grid, (1, 2, 1));
                assert_eq!(l.args[0], Arg::Buffer(Place::scratch(2)));
                assert_eq!(l.args[1], Arg::Buffer(Place::scratch(0)));
                assert_eq!(l.args[2], Arg::Buffer(Place::scratch(1)));
                assert_eq!(l.args[3], Arg::Buffer(Place::scratch(3)));
                assert_eq!(l.args[5], Arg::Word(2));
            }
            other => panic!("not a launch: {:?}", other),
        }
        assert_eq!(
            run.next(Event::Done),
            Action::ReadHalves { slot: Slot::Scratch(3), failure: "dtoh o_one: " }
        );
        a = run.next(Event::Halves(vec![p as u16 + 10; 256]));
    }
    let expected: Vec<u16> = (0..4u16).flat_map(|p| vec![p + 10; 256]).collect();
    assert_eq!(
        a,
        Action::WriteHalves {
            slot: Slot::Param(4),
            data: expected,
            failure: "htod final out: "
        }
    );
    assert_eq!(run.next(Event::Done), Action::Finish(Ok(())));
    assert_eq!(run.stage, SparseStage::Ended);
}

#[test]
fn whole_call_scores_selects_and_attends() {
    let s = shape();
    assert!(dsa_sizes_fit(s));
    let (run, a) = dsa_attention_bf16(
        4 * 4096, 6 * 128, 128, 12, s.batch, s.seq_q, s.seq_kv_full, s.num_heads, s.num_kv_heads,
        s.topk, s.scale,
    );
    match a {
        Action::Run(Step::Launch(l)) => {
            assert_eq!(l.entry, "dsa_indexer_score_bf16");
            assert_eq!(l.args[3], Arg::Buffer(Place::param(6)));
        }
        other => panic!("not a launch: {:?}", other),
    }
    let (run, a) = run.next(Event::Done);
    assert_eq!(a, Action::ReadScores { slot: Slot::Param(6), failure: "dtoh index_scores: " });
    let scores: Vec<F32> = [1.0, 2.0, 3.0, 3.0, 1.0, 2.0, 0.0, 0.0, 0.0, 5.0, 9.0, 7.0]
        .iter()
        .map(|x| f(*x))
        .collect();
    assert!(!run.can_accept(&Event::Scores(scores[1..].to_vec())));
    let (run, a) = run.next(Event::Scores(scores));
    assert_eq!(
        a,
        Action::WriteIndices {
            slot: Slot::Param(7),
            indices: vec![2, 1, 0, 2, 0, 1, 1, 2],
            failure: "htod topk_indices: "
        }
    );
    let (run, a) = run.next(Event::Done);
    assert_eq!(
        a,
        Action::ReadIndices { slot: Slot::Param(7), failure: "dtoh top_k_indices: " }
    );
    assert!(run.can_accept(&Event::Indices(vec![2, 1, 0, 2, 0, 1, 1, 2])));
    let (_, a) = dsa_attention_bf16(0, 0, 0, 0, 1, 1, 1, 1, 1, 1, f(1.0));
    assert_eq!(
        a,
        Action::Finish(Err(SparkError::InvalidArgument("q too small: 0 < 4096".into())))
    );
}

#[test]
fn failed_copies_are_told() {
    assert_eq!(
        Action::copy_error("dtoh q: ", DriverError { code: 1, text: "E".into() }),
        SparkError::LaunchFailed("dtoh q: E".into())
    );
    assert_eq!(
        Step::alloc_error(Some("alloc q_one: "), DriverError { code: 2, text: "E".into() }),
        SparkError::LaunchFailed("alloc q_one: E".into())
    );
    assert_eq!(
        Step::alloc_error(None, DriverError { code: 2, text: "E".into() }),
        SparkError::Driver(DriverError { code: 2, text: "E".into() })
    );
}
