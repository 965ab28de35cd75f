use machpatch::errors::PatchError;
use machpatch::locate::{locate_advance, locate_begin, LocateState};
use machpatch::paths::{has_app_suffix, NodePath};
use machpatch::plan::{plan_patch, resolve_output, Action, FsKind, PreStep};

fn np(path: &str) -> NodePath {
    let parts: Vec<Vec<u8>> = path
        .split('/')
        .filter(|c| !c.is_empty())
        .map(|c| c.as_bytes().to_vec())
        .collect();
    NodePath { parts }
}

/// Drive the locate machine the way the surrounding binary does, with
/// `valid` standing in for the external bundle validator.
fn run_locate<F: FnMut(&NodePath) -> bool>(
    input: &NodePath,
    input_exists: bool,
    mut valid: F,
) -> Result<NodePath, PatchError> {
    let mut state = locate_begin(input, input_exists);
    loop {
        match state {
            LocateState::Probe(candidate) => {
                let verdict = valid(&candidate);
                state = locate_advance(&candidate, verdict);
            }
            LocateState::Found(bundle) => return Ok(bundle),
            LocateState::Failed(e) => return Err(e),
        }
    }
}

#[test]
fn app_suffix_matches_only_a_trailing_dot_app() {
    assert!(has_app_suffix(&b"Foo.app".to_vec()));
    assert!(has_app_suffix(&b".app".to_vec()));
    assert!(!has_app_suffix(&b"app".to_vec()));
    assert!(!has_app_suffix(&b"Foo.app2".to_vec()));
    assert!(!has_app_suffix(&b"Fooapp".to_vec()));
    assert!(!has_app_suffix(&b"".to_vec()));
    assert!(!has_app_suffix(&b"ap".to_vec()));
    assert!(has_app_suffix(&b"nested.app.app".to_vec()));
}

#[test]
fn missing_input_fails_before_any_walk() {
    let input = np("/apps/Foo.app/Contents/MacOS/foo");
    let mut validator_calls = 0usize;
    let r = run_locate(&input, false, |_| {
        validator_calls += 1;
        true
    });
    assert_eq!(r, Err(PatchError::PathNotFound));
    assert_eq!(validator_calls, 0);
}

#[test]
fn no_app_ancestor_walks_to_root_and_fails() {
    let input = np("/tmp/random.txt");
    let r = run_locate(&input, true, |_| true);
    assert_eq!(r, Err(PatchError::NoBundleFound));
}

#[test]
fn app_named_ancestors_failing_validation_fail_the_walk() {
    let input = np("/apps/Foo.app/Contents/MacOS/foo");
    let mut probed: Vec<NodePath> = Vec::new();
    let r = run_locate(&input, true, |c| {
        probed.push(c.clone());
        false
    });
    assert_eq!(r, Err(PatchError::NoBundleFound));
    assert_eq!(probed, vec![np("/apps/Foo.app")]);
}

#[test]
fn nearest_valid_bundle_wins() {
    let input = np("/apps/Foo.app/Contents/MacOS/foo");
    let r = run_locate(&input, true, |c| *c == np("/apps/Foo.app"));
    assert_eq!(r, Ok(np("/apps/Foo.app")));
}

#[test]
fn invalid_nearer_app_directory_is_skipped_for_a_valid_outer_one() {
    let input = np("/x/Good.app/sub/Bad.app/file");
    let good = np("/x/Good.app");
    let mut probed: Vec<NodePath> = Vec::new();
    let r = run_locate(&input, true, |c| {
        probed.push(c.clone());
        *c == good
    });
    assert_eq!(r, Ok(good));
    assert_eq!(probed, vec![np("/x/Good.app/sub/Bad.app"), np("/x/Good.app")]);
}

#[test]
fn search_starting_at_the_root_finds_nothing() {
    let root = NodePath { parts: Vec::new() };
    let r = run_locate(&root, true, |_| true);
    assert_eq!(r, Err(PatchError::NoBundleFound));
}

#[test]
fn inplace_output_is_the_input_with_nothing_cleared() {
    let input = np("/apps/Foo.app");
    let existing = np("/out/Foo.app");
    let d = resolve_output(true, false, &input, Some(&existing), FsKind::Dir).unwrap();
    assert_eq!(d.output, input);
    assert_eq!(d.pre, PreStep::Keep);
}

#[test]
fn missing_output_without_inplace_is_an_error() {
    let input = np("/bin/tool");
    let r = resolve_output(false, false, &input, None, FsKind::Missing);
    assert_eq!(r, Err(PatchError::MissingOutputPath));
}

#[test]
fn existing_output_without_force_aborts() {
    let input = np("/bin/tool");
    let out = np("/out/tool");
    let r = resolve_output(false, false, &input, Some(&out), FsKind::File);
    assert_eq!(r, Err(PatchError::OutputAlreadyExists));
    let r = resolve_output(false, false, &input, Some(&out), FsKind::Dir);
    assert_eq!(r, Err(PatchError::OutputAlreadyExists));
}

#[test]
fn existing_output_with_force_is_cleared_as_found() {
    let input = np("/bin/tool");
    let out = np("/out/tool");
    let d = resolve_output(false, true, &input, Some(&out), FsKind::File).unwrap();
    assert_eq!(d.output, out);
    assert_eq!(d.pre, PreStep::RemoveFile(np("/out/tool")));
    let d = resolve_output(false, true, &input, Some(&out), FsKind::Dir).unwrap();
    assert_eq!(d.pre, PreStep::RemoveDirAll(np("/out/tool")));
    let d = resolve_output(false, true, &input, Some(&out), FsKind::Other).unwrap();
    assert_eq!(d.pre, PreStep::Keep);
}

#[test]
fn fresh_output_path_needs_no_force() {
    let input = np("/bin/tool");
    let out = np("/out/tool");
    let d = resolve_output(false, false, &input, Some(&out), FsKind::Missing).unwrap();
    assert_eq!(d.output, out);
    assert_eq!(d.pre, PreStep::Keep);
}

#[test]
fn valid_bundle_with_output_copies_strips_and_resigns() {
    let input = np("/apps/Foo.app");
    let out = np("/out/Foo.app");
    let d = resolve_output(false, true, &input, Some(&out), FsKind::Missing).unwrap();
    let bundle = run_locate(&input, true, |c| *c == np("/apps/Foo.app")).unwrap();
    assert_eq!(bundle, np("/apps/Foo.app"));
    let plan = plan_patch(Some(&bundle), false, false, &input, &d.output).unwrap();
    assert_eq!(
        plan,
        vec![
            Action::CopyTree { from: np("/apps/Foo.app"), to: np("/out/Foo.app") },
            Action::StripSignature { at: np("/out/Foo.app") },
            Action::SignAdHoc { at: np("/out/Foo.app") },
        ]
    );
}

#[test]
fn plain_macho_with_output_copies_and_strips_but_never_resigns() {
    let input = np("/bin/tool");
    let out = np("/out/tool");
    let d = resolve_output(false, false, &input, Some(&out), FsKind::Missing).unwrap();
    let located = run_locate(&input, true, |_| true);
    assert_eq!(located, Err(PatchError::NoBundleFound));
    let plan = plan_patch(None, true, false, &input, &d.output).unwrap();
    assert_eq!(
        plan,
        vec![
            Action::MakeParentDirs { of: np("/out/tool") },
            Action::CopyFile { from: np("/bin/tool"), to: np("/out/tool") },
            Action::StripSignature { at: np("/out/tool") },
        ]
    );
    assert!(!plan.iter().any(|a| matches!(a, Action::SignAdHoc { .. })));
}

#[test]
fn neither_bundle_nor_macho_produces_nothing() {
    let input = np("/tmp/random.txt");
    let located = run_locate(&input, true, |_| false);
    assert_eq!(located, Err(PatchError::NoBundleFound));
    let plan = plan_patch(None, false, false, &input, &np("/out/x"));
    assert_eq!(plan, Err(PatchError::NoBundleOrExecutableFound));
}

#[test]
fn inplace_bundle_run_copies_nothing_and_acts_on_the_input() {
    let input = np("/apps/Foo.app");
    let d = resolve_output(true, false, &input, None, FsKind::Missing).unwrap();
    assert_eq!(d.output, input);
    let plan = plan_patch(Some(&input), false, true, &input, &d.output).unwrap();
    assert_eq!(
        plan,
        vec![
            Action::StripSignature { at: np("/apps/Foo.app") },
            Action::SignAdHoc { at: np("/apps/Foo.app") },
        ]
    );
}

#[test]
fn inplace_macho_run_only_strips_the_input() {
    let input = np("/bin/tool");
    let d = resolve_output(true, true, &input, None, FsKind::Missing).unwrap();
    let plan = plan_patch(None, true, true, &input, &d.output).unwrap();
    assert_eq!(plan, vec![Action::StripSignature { at: np("/bin/tool") }]);
}

#[test]
fn cloned_paths_compare_equal() {
    let p = np("/apps/Foo.app/Contents");
    let q = p.clone();
    assert_eq!(p, q);
    assert_eq!(q.depth(), 3);
}

#[test]
fn drop_last_moves_to_the_parent() {
    let mut p = np("/apps/Foo.app");
    p.drop_last();
    assert_eq!(p, np("/apps"));
    p.drop_last();
    assert_eq!(p, NodePath { parts: Vec::new() });
    assert_eq!(p.depth(), 0);
}
