use fcmp::CompareError;
use fcmp::DiffOp;
use fcmp::FileCmp;
use fcmp::FileKind;
use fcmp::FileMeta;
use fcmp::MissingFileBehavior;
use fcmp::Offer;
use fcmp::Selection;
use fcmp::ops::DiffPlan;

fn present(path: &str, modified_ns: i128) -> FileCmp {
    let meta = FileMeta { size: 4, modified_ns, is_symlink: false, kind: FileKind::Regular };
    FileCmp::found(path.to_string(), meta)
}

fn absent(path: &str) -> FileCmp {
    FileCmp::not_found(path.to_string())
}

/// Runs a pass over `files`, asking `differs` for each contest.
fn select_with(
    files: Vec<FileCmp>,
    reverse: bool,
    missing: MissingFileBehavior,
    differs: &dyn Fn(&FileCmp, &FileCmp) -> bool,
) -> Result<usize, CompareError> {
    let mut sel = Selection::new(reverse, missing);
    for (idx, file) in files.into_iter().enumerate() {
        if sel.offer(idx, file)? == Offer::Contest {
            let (best, candidate) = sel.contest().unwrap();
            let d = differs(best, candidate);
            sel.settle(d);
        }
    }
    Ok(sel.best_index())
}

/// Runs a pass with the no-op strategy, which the library settles itself.
fn select(files: Vec<FileCmp>, reverse: bool, missing: MissingFileBehavior) -> Result<usize, CompareError> {
    select_with(files, reverse, missing, &|a, b| match DiffOp::NoOp.plan(a, b) {
        DiffPlan::Decided(v) => v,
        _ => unreachable!(),
    })
}

fn always_differs(_: &FileCmp, _: &FileCmp) -> bool {
    true
}

#[test]
fn newest_is_selected() {
    let files = vec![present("a", 10), present("b", 30), present("c", 20)];
    assert_eq!(select(files, false, MissingFileBehavior::Ignore), Ok(1));
}

#[test]
fn oldest_is_selected_in_reverse() {
    let files = vec![present("a", 10), present("b", 30), present("c", 5)];
    assert_eq!(select(files, true, MissingFileBehavior::Ignore), Ok(2));
}

#[test]
fn single_file_is_selected() {
    assert_eq!(select(vec![present("only", 1)], false, MissingFileBehavior::Oldest), Ok(0));
    assert_eq!(select(vec![present("only", 1)], true, MissingFileBehavior::Oldest), Ok(0));
}

#[test]
fn tie_keeps_earlier_index_both_directions() {
    for reverse in [false, true] {
        let files = vec![present("a", 10), present("b", 10)];
        assert_eq!(
            select_with(files, reverse, MissingFileBehavior::Ignore, &always_differs),
            Ok(0)
        );
    }
}

#[test]
fn tie_among_many_keeps_earliest() {
    let files = vec![present("a", 1), present("b", 7), present("c", 7), present("d", 3)];
    assert_eq!(select(files, false, MissingFileBehavior::Ignore), Ok(1));
}

#[test]
fn content_equal_candidate_does_not_replace() {
    let files = vec![present("a", 10), present("b", 99)];
    let never = |_: &FileCmp, _: &FileCmp| false;
    assert_eq!(select_with(files, false, MissingFileBehavior::Ignore, &never), Ok(0));
}

#[test]
fn missing_policy_treat_as_oldest() {
    let files = vec![present("here", 10), absent("gone")];
    assert_eq!(select(files, false, MissingFileBehavior::Oldest), Ok(0));
}

#[test]
fn missing_policy_treat_as_newest() {
    let files = vec![present("here", 10), absent("gone")];
    assert_eq!(select(files, false, MissingFileBehavior::Newest), Ok(1));
}

#[test]
fn missing_policy_ignore() {
    let files = vec![present("here", 10), absent("gone")];
    assert_eq!(select(files, false, MissingFileBehavior::Ignore), Ok(0));
}

#[test]
fn missing_policy_error_names_the_path() {
    let files = vec![present("here", 10), absent("gone")];
    assert_eq!(
        select(files, false, MissingFileBehavior::Error),
        Err(CompareError::NotFound { path: "gone".to_string() })
    );
}

#[test]
fn ignored_file_first_does_not_become_best() {
    let files = vec![absent("gone"), present("a", 1), present("b", 2)];
    assert_eq!(select(files, false, MissingFileBehavior::Ignore), Ok(2));
    let files = vec![absent("gone"), present("a", 1)];
    assert_eq!(select(files, false, MissingFileBehavior::Ignore), Ok(1));
}

#[test]
fn all_files_ignored_selects_zero() {
    let files = vec![absent("x"), absent("y")];
    assert_eq!(select(files, false, MissingFileBehavior::Ignore), Ok(0));
}

#[test]
fn missing_first_is_adopted_then_replaced() {
    let files = vec![absent("gone"), present("a", 1)];
    assert_eq!(select(files, false, MissingFileBehavior::Oldest), Ok(1));
    let files = vec![absent("gone"), present("a", 1)];
    assert_eq!(select(files, false, MissingFileBehavior::Newest), Ok(0));
}

#[test]
fn two_missing_files_keep_the_first() {
    let files = vec![absent("x"), absent("y")];
    assert_eq!(select(files, false, MissingFileBehavior::Newest), Ok(0));
    let files = vec![absent("x"), absent("y")];
    assert_eq!(select(files, true, MissingFileBehavior::Oldest), Ok(0));
}

#[test]
fn same_inputs_select_the_same_index() {
    let make = || vec![present("a", 4), absent("b"), present("c", 9), present("d", 9)];
    for reverse in [false, true] {
        for missing in [MissingFileBehavior::Oldest, MissingFileBehavior::Newest, MissingFileBehavior::Ignore] {
            let first = select(make(), reverse, missing);
            let second = select(make(), reverse, missing);
            assert_eq!(first, second);
        }
    }
}

#[test]
fn offer_reports_what_happened() {
    let mut sel = Selection::new(false, MissingFileBehavior::Ignore);
    assert!(sel.contest().is_none());
    assert_eq!(sel.offer(0, absent("gone")), Ok(Offer::Skipped));
    assert_eq!(sel.offer(1, present("a", 1)), Ok(Offer::Adopted));
    assert_eq!(sel.offer(2, present("b", 2)), Ok(Offer::Contest));
    let (best, candidate) = sel.contest().unwrap();
    assert_eq!(best.path, "a");
    assert_eq!(candidate.path, "b");
    sel.settle(true);
    assert!(sel.contest().is_none());
    assert_eq!(sel.best_index(), 2);
}

#[test]
fn error_offer_leaves_the_pass_unchanged() {
    let mut sel = Selection::new(false, MissingFileBehavior::Error);
    assert_eq!(sel.offer(0, present("a", 1)), Ok(Offer::Adopted));
    assert!(sel.offer(1, absent("b")).is_err());
    assert_eq!(sel.best_index(), 0);
}
