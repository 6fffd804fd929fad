use photosort::replicator::{NoneReplicator, ReplicatorKind, ReplicatorWithFallback};
use photosort::sort::{
    Config, FsAction, FsOutcome, SkippedReason, SortError, SortResult, SortStep, Sorter,
};
use photosort::template::{RenderError, Template};

/// Walks a sort run to completion, answering each requested filesystem
/// action with the given simulation.
fn drive<F: FnMut(&FsAction) -> FsOutcome>(
    mut step: SortStep,
    mut fs: F,
) -> Result<SortResult, SortError> {
    loop {
        match step {
            SortStep::Done(r) => return r,
            SortStep::Pending(run) => {
                let action = run.action();
                let outcome = fs(&action);
                step = run.step(outcome);
            }
        }
    }
}

fn sorter(template: &str, kinds: Vec<ReplicatorKind>, overwrite: bool) -> Sorter {
    Sorter::new(Config::new(
        Template::parse_str(template).unwrap(),
        ReplicatorWithFallback::from_kinds(kinds),
        overwrite,
    ))
}

#[test]
fn template_error() {
    let sorter = sorter(":inexistent.variable:", vec![ReplicatorKind::Sentinel], false);

    let result = drive(sorter.sort_file("/dev/null"), |_| {
        panic!("no filesystem action expected")
    });

    assert!(result.is_err());
    let err = result.unwrap_err();
    let err = match err {
        SortError::TemplateError(err) => err,
        _ => panic!("{:?} is not of type TemplateError", err),
    };

    assert_eq!(
        err,
        RenderError::UndefinedVariable("inexistent.variable".to_owned()),
    );
}

#[test]
fn replicate_error() {
    let sorter = sorter(":file.path:2", vec![ReplicatorKind::Sentinel], false);

    let result = drive(sorter.sort_file("/dev/null"), |action| match action {
        FsAction::CheckDestExists { .. } => FsOutcome::Exists(false),
        FsAction::CreateParentDir { .. } => FsOutcome::DirCreated(Ok(())),
        FsAction::Replicate { src, dest, .. } => {
            FsOutcome::Replicated(NoneReplicator::default().replicate(src, dest))
        }
        FsAction::RemoveDest { .. } => panic!("no removal expected"),
    });

    assert!(result.is_err());
    let err = result.unwrap_err();
    let (err, dest_path) = match err {
        SortError::ReplicateError(err, dest_path) => (err, dest_path),
        _ => panic!("expected error of type ReplicateError, got \"{:?}\"", err),
    };

    assert_eq!(dest_path, "/dev/null2");
    assert_eq!(err, NoneReplicator::replicate_error());
}

#[test]
fn overwrite_error() {
    let src_path = "/proc/self/stat";

    let sorter = sorter(":file.path:us", vec![ReplicatorKind::SoftLink], true);

    let result = drive(sorter.sort_file(src_path), |action| match action {
        FsAction::CheckDestExists { .. } => FsOutcome::Exists(true),
        FsAction::RemoveDest { .. } => {
            FsOutcome::Removed(Err("permission denied".to_owned()))
        }
        _ => panic!("run should have ended at the removal"),
    });

    assert!(result.is_err());
    let err = result.unwrap_err();
    let (err, dest_path) = match err {
        SortError::OverwriteError(err, dest_path) => (err, dest_path),
        _ => panic!("expected error of type OverwriteError, got \"{:?}\"", err),
    };

    assert_eq!(dest_path, "/proc/self/status");
    assert_eq!(err, "permission denied");
}

#[test]
fn skipped_source_and_destination_are_same() {
    let src_path = "/tmp/pictures/holiday.jpg";
    let sorter = sorter(src_path, vec![ReplicatorKind::SoftLink], true);

    let result = drive(sorter.sort_file(src_path), |_| {
        panic!("a same-file skip performs no filesystem action")
    });

    assert!(result.is_ok());
    let result = result.unwrap();
    let (replicate_path, skip_reason) = match result {
        SortResult::Skipped {
            replicate_path,
            reason,
        } => (replicate_path, reason),
        _ => panic!("expected sort result of type Skipped, got \"{:?}\"", result),
    };

    assert_eq!(replicate_path, src_path);
    assert_eq!(skip_reason, SkippedReason::SameFile);
}

#[test]
fn skipped_overwrite_disabled() {
    let src_path = "/tmp/pictures/holiday.jpg";
    let sorter = sorter(":file.path:2", vec![ReplicatorKind::SoftLink], false);

    let result = drive(sorter.sort_file(src_path), |action| match action {
        FsAction::CheckDestExists { .. } => FsOutcome::Exists(true),
        _ => panic!("run should have ended at the existence check"),
    });

    assert!(result.is_ok());
    let result = result.unwrap();
    let (replicate_path, skip_reason) = match result {
        SortResult::Skipped {
            replicate_path,
            reason,
        } => (replicate_path, reason),
        _ => panic!("expected sort result of type Skipped, got \"{:?}\"", result),
    };

    assert_eq!(replicate_path, "/tmp/pictures/holiday.jpg2");
    assert_eq!(skip_reason, SkippedReason::Overwrite);
}

#[test]
fn replicated() {
    let src = "/tmp/sorted/source.txt";
    let mut expected_dst = src.to_owned();
    expected_dst.push_str("-copy");

    let sorter = sorter(":file.path:-copy", vec![ReplicatorKind::Copy], false);

    let mut dest_content: Option<String> = None;
    let result = drive(sorter.sort_file(src), |action| match action {
        FsAction::CheckDestExists { .. } => FsOutcome::Exists(dest_content.is_some()),
        FsAction::CreateParentDir { .. } => FsOutcome::DirCreated(Ok(())),
        FsAction::Replicate { .. } => {
            dest_content = Some("source bytes".to_owned());
            FsOutcome::Replicated(Ok(()))
        }
        FsAction::RemoveDest { .. } => panic!("no removal expected"),
    });

    assert!(result.is_ok());
    let result = result.unwrap();
    let (replicate_path, overwrite) = match result {
        SortResult::Replicated {
            replicate_path,
            overwrite,
        } => (replicate_path, overwrite),
        _ => panic!(
            "expected sort result of type Replicated, got \"{:?}\"",
            result
        ),
    };

    assert!(!overwrite);
    assert_eq!(replicate_path, expected_dst);
    assert_eq!(dest_content.as_deref(), Some("source bytes"));
}

#[test]
fn replicated_with_overwrite() {
    let src = "/tmp/sorted/source.txt";
    let mut expected_dst = src.to_owned();
    expected_dst.push_str("-copy");

    let sorter = sorter(":file.path:-copy", vec![ReplicatorKind::Copy], true);

    let mut dest_content: Option<String> = Some("stale".to_owned());
    let result = drive(sorter.sort_file(src), |action| match action {
        FsAction::CheckDestExists { .. } => FsOutcome::Exists(dest_content.is_some()),
        FsAction::RemoveDest { .. } => {
            dest_content = None;
            FsOutcome::Removed(Ok(()))
        }
        FsAction::CreateParentDir { .. } => FsOutcome::DirCreated(Ok(())),
        FsAction::Replicate { .. } => {
            dest_content = Some("source bytes".to_owned());
            FsOutcome::Replicated(Ok(()))
        }
    });

    assert!(result.is_ok());
    let result = result.unwrap();
    let (replicate_path, overwrite) = match result {
        SortResult::Replicated {
            replicate_path,
            overwrite,
        } => (replicate_path, overwrite),
        _ => panic!(
            "expected sort result of type Replicated, got \"{:?}\"",
            result
        ),
    };

    assert!(overwrite);
    assert_eq!(replicate_path, expected_dst);
    assert_eq!(dest_content.as_deref(), Some("source bytes"));
}

#[test]
fn fallback_reaches_third_strategy() {
    // Three strategies: the first two fail deterministically, the third
    // succeeds; replication succeeds via the third.
    let sorter = sorter(
        ":file.path:.out",
        vec![
            ReplicatorKind::HardLink,
            ReplicatorKind::SoftLink,
            ReplicatorKind::Copy,
        ],
        false,
    );

    let mut attempts: Vec<ReplicatorKind> = Vec::new();
    let result = drive(sorter.sort_file("/tmp/f"), |action| match action {
        FsAction::CheckDestExists { .. } => FsOutcome::Exists(false),
        FsAction::CreateParentDir { .. } => FsOutcome::DirCreated(Ok(())),
        FsAction::Replicate { kind, .. } => {
            attempts.push(*kind);
            if *kind == ReplicatorKind::Copy {
                FsOutcome::Replicated(Ok(()))
            } else {
                FsOutcome::Replicated(Err("strategy failed".to_owned()))
            }
        }
        FsAction::RemoveDest { .. } => panic!("no removal expected"),
    });

    assert!(matches!(result, Ok(SortResult::Replicated { .. })));
    assert_eq!(
        attempts,
        vec![
            ReplicatorKind::HardLink,
            ReplicatorKind::SoftLink,
            ReplicatorKind::Copy
        ]
    );
}

#[test]
fn replicator_with_fallback() {
    // A stateful fallback simulation: strategy 1 succeeds only when the
    // destination does not exist yet (writing "foo"); strategy 2 succeeds
    // only while the destination does not already hold "bar" (writing
    // "bar"). Sequential runs progress foo, then bar, then exhausted.
    let sorter = sorter(
        ":file.path:.dst",
        vec![ReplicatorKind::HardLink, ReplicatorKind::Copy],
        true,
    );

    let mut dest_content: Option<String> = None;

    let mut run = |dest_content: &mut Option<String>| {
        let mut attempt: usize = 0;
        drive(sorter.sort_file("/tmp/f"), |action| match action {
            FsAction::CheckDestExists { .. } => FsOutcome::Exists(false),
            FsAction::CreateParentDir { .. } => FsOutcome::DirCreated(Ok(())),
            FsAction::Replicate { .. } => {
                attempt += 1;
                if attempt == 1 {
                    // first strategy: writes "foo" only onto a fresh destination
                    if dest_content.is_none() {
                        *dest_content = Some("foo".to_owned());
                        FsOutcome::Replicated(Ok(()))
                    } else {
                        FsOutcome::Replicated(Err("replictor1 error".to_owned()))
                    }
                } else {
                    // second strategy: writes "bar" unless it is already there
                    if dest_content.as_deref() != Some("bar") {
                        *dest_content = Some("bar".to_owned());
                        FsOutcome::Replicated(Ok(()))
                    } else {
                        FsOutcome::Replicated(Err("replictor2 error".to_owned()))
                    }
                }
            }
            FsAction::RemoveDest { .. } => panic!("no removal expected"),
        })
    };

    // first run: the first strategy succeeds
    let result = run(&mut dest_content);
    assert_eq!(dest_content.as_deref(), Some("foo"));
    assert!(result.is_ok());

    // second run: the first fails, the fallback succeeds
    let result = run(&mut dest_content);
    assert_eq!(dest_content.as_deref(), Some("bar"));
    assert!(result.is_ok());

    // third run: every strategy fails; the sentinel's error is returned
    let result = run(&mut dest_content);
    assert_eq!(dest_content.as_deref(), Some("bar"));
    assert!(result.is_err());
    match result.unwrap_err() {
        SortError::ReplicateError(msg, _) => {
            assert_eq!(msg, NoneReplicator::replicate_error())
        }
        other => panic!("expected a ReplicateError, got \"{:?}\"", other),
    }
}

#[test]
fn sort_file_seeds_identity_variables() {
    let sorter = sorter(
        "/out/:file.stem:_copy.:file.extension:",
        vec![ReplicatorKind::Copy],
        false,
    );

    let result = drive(sorter.sort_file("/tmp/album/source.txt"), |action| {
        match action {
            FsAction::CheckDestExists { .. } => FsOutcome::Exists(false),
            FsAction::CreateParentDir { .. } => FsOutcome::DirCreated(Ok(())),
            FsAction::Replicate { .. } => FsOutcome::Replicated(Ok(())),
            FsAction::RemoveDest { .. } => panic!("no removal expected"),
        }
    });

    match result.unwrap() {
        SortResult::Replicated { replicate_path, .. } => {
            assert_eq!(replicate_path, "/out/source_copy.txt");
        }
        other => panic!("expected a replication, got {:?}", other),
    }
}

#[test]
fn empty_chain_is_exhausted_at_once() {
    let sorter = sorter(":file.path:.dst", vec![], false);

    let result = drive(sorter.sort_file("/tmp/f"), |action| match action {
        FsAction::CheckDestExists { .. } => FsOutcome::Exists(false),
        FsAction::CreateParentDir { .. } => FsOutcome::DirCreated(Ok(())),
        _ => panic!("an empty chain never replicates"),
    });

    match result.unwrap_err() {
        SortError::ReplicateError(msg, dest) => {
            assert_eq!(msg, NoneReplicator::replicate_error());
            assert_eq!(dest, "/tmp/f.dst");
        }
        other => panic!("expected a ReplicateError, got \"{:?}\"", other),
    }
}
