use std::io::BufRead;
use std::io::BufReader;

use fcmp::ops::compare_chunks;
use fcmp::ops::exit_verdict;
use fcmp::ops::ChunkStep;
use fcmp::ops::DiffPlan;
use fcmp::CompareError;
use fcmp::DiffOp;
use fcmp::FileCmp;
use fcmp::FileKind;
use fcmp::FileMeta;

fn meta(size: u64) -> FileMeta {
    FileMeta { size, modified_ns: 0, is_symlink: false, kind: FileKind::Regular }
}

/// Streams two byte strings through buffers of the given capacities and
/// compares them chunk by chunk; `true` when they differ.
fn streams_differ(a: &[u8], b: &[u8], cap_a: usize, cap_b: usize) -> bool {
    let mut ra = BufReader::with_capacity(cap_a, a);
    let mut rb = BufReader::with_capacity(cap_b, b);
    loop {
        let ca = ra.fill_buf().unwrap();
        let cb = rb.fill_buf().unwrap();
        match compare_chunks(ca, cb) {
            ChunkStep::Same => return false,
            ChunkStep::Different => return true,
            ChunkStep::Advance(n) => {
                ra.consume(n);
                rb.consume(n);
            }
        }
    }
}

#[test]
fn posix_diff_runs_diff() {
    match DiffOp::posix_diff() {
        DiffOp::Subprocess { command, args } => {
            assert_eq!(command, "diff");
            assert!(args.is_empty());
        }
        _ => panic!("not a subprocess"),
    }
}

#[test]
fn posix_cmp_runs_cmp_silently() {
    match DiffOp::posix_cmp() {
        DiffOp::Subprocess { command, args } => {
            assert_eq!(command, "cmp");
            assert_eq!(args, vec!["-s"]);
        }
        _ => panic!("not a subprocess"),
    }
}

#[test]
fn no_op_compares_path_strings() {
    let a = FileCmp::found("a".to_string(), meta(1));
    let a2 = FileCmp::not_found("a".to_string());
    let b = FileCmp::found("b".to_string(), meta(1));
    assert_eq!(DiffOp::NoOp.plan(&a, &b), DiffPlan::Decided(true));
    assert_eq!(DiffOp::NoOp.plan(&a, &a2), DiffPlan::Decided(false));
}

#[test]
fn internal_settles_on_metadata() {
    let gone = FileCmp::not_found("x".to_string());
    let gone2 = FileCmp::not_found("y".to_string());
    let small = FileCmp::found("s".to_string(), meta(1));
    let big = FileCmp::found("b".to_string(), meta(2));
    let small2 = FileCmp::found("t".to_string(), meta(1));
    let dir = FileCmp::found("d".to_string(), FileMeta { kind: FileKind::Directory, ..meta(1) });
    let link = FileCmp::found("l".to_string(), FileMeta { is_symlink: true, ..meta(1) });
    assert_eq!(DiffOp::Internal.plan(&gone, &gone2), DiffPlan::Decided(false));
    assert_eq!(DiffOp::Internal.plan(&gone, &small), DiffPlan::Decided(true));
    assert_eq!(DiffOp::Internal.plan(&small, &gone), DiffPlan::Decided(true));
    assert_eq!(DiffOp::Internal.plan(&small, &big), DiffPlan::Decided(true));
    assert_eq!(DiffOp::Internal.plan(&small, &dir), DiffPlan::Decided(true));
    assert_eq!(DiffOp::Internal.plan(&small, &link), DiffPlan::Decided(true));
    assert_eq!(DiffOp::Internal.plan(&link, &link), DiffPlan::Decided(true));
    assert_eq!(DiffOp::Internal.plan(&small, &small2), DiffPlan::ReadContents);
}

#[test]
fn subprocess_must_be_run() {
    let a = FileCmp::found("a".to_string(), meta(1));
    assert_eq!(DiffOp::posix_cmp().plan(&a, &a), DiffPlan::RunCommand);
}

#[test]
fn chunk_steps() {
    assert_eq!(compare_chunks(b"", b""), ChunkStep::Same);
    assert_eq!(compare_chunks(b"", b"a"), ChunkStep::Different);
    assert_eq!(compare_chunks(b"a", b""), ChunkStep::Different);
    assert_eq!(compare_chunks(b"abc", b"ab"), ChunkStep::Advance(2));
    assert_eq!(compare_chunks(b"ab", b"abcd"), ChunkStep::Advance(2));
    assert_eq!(compare_chunks(b"abc", b"abd"), ChunkStep::Different);
    assert_eq!(compare_chunks(b"xbc", b"ab"), ChunkStep::Different);
}

#[test]
fn identical_streams_do_not_differ() {
    let data: Vec<u8> = (0..100u8).collect();
    assert!(!streams_differ(&data, &data, 8, 8));
    assert!(!streams_differ(&data, &data, 7, 13));
    assert!(!streams_differ(b"", b"", 4, 4));
}

#[test]
fn byte_differing_at_chunk_boundary_is_found() {
    let a: Vec<u8> = vec![7u8; 32];
    let mut b = a.clone();
    b[8] = 8;
    assert!(streams_differ(&a, &b, 8, 8));
    assert!(streams_differ(&a, &b, 8, 5));
    let mut c = a.clone();
    c[7] = 0;
    assert!(streams_differ(&a, &c, 8, 8));
    let mut d = a.clone();
    d[31] = 0;
    assert!(streams_differ(&a, &d, 8, 3));
}

#[test]
fn stream_ending_early_differs() {
    assert!(streams_differ(b"abcdef", b"abc", 4, 4));
    assert!(streams_differ(b"abc", b"abcdef", 2, 5));
}

#[test]
fn comparator_exit_codes() {
    assert_eq!(exit_verdict(Some(0)), Ok(false));
    assert_eq!(exit_verdict(Some(1)), Ok(true));
    assert_eq!(exit_verdict(Some(2)), Err(CompareError::ComparatorExit { code: 2 }));
    assert_eq!(exit_verdict(Some(-1)), Err(CompareError::ComparatorExit { code: -1 }));
    assert_eq!(exit_verdict(None), Err(CompareError::ComparatorKilled));
}
