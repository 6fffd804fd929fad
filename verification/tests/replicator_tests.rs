use photosort::replicator::{NoneReplicator, ReplicatorKind, ReplicatorWithFallback};

#[test]
fn none_replicator_error() {
    let replicator = NoneReplicator::default();
    let result = replicator.replicate("/tmp/src.txt", "/tmp/dst.txt");

    assert!(result.is_err());
    assert_eq!(result.unwrap_err(), NoneReplicator::replicate_error());
    assert_eq!(replicator.kind(), ReplicatorKind::Sentinel);
    assert_eq!(
        NoneReplicator::replicate_error(),
        "none replicator reached: replicate failed"
    );
}

#[test]
fn parse_known_kinds() {
    assert_eq!(ReplicatorKind::parse("copy").unwrap(), ReplicatorKind::Copy);
    assert_eq!(
        ReplicatorKind::parse("hardlink").unwrap(),
        ReplicatorKind::HardLink
    );
    assert_eq!(
        ReplicatorKind::parse("softlink").unwrap(),
        ReplicatorKind::SoftLink
    );
    assert_eq!(
        ReplicatorKind::parse("none").unwrap(),
        ReplicatorKind::Sentinel
    );
}

#[test]
fn parse_unknown_kind_names_it() {
    let err = ReplicatorKind::parse("tarball").unwrap_err();
    assert_eq!(err.message(), "unknown replicator kind: tarball");
}

#[test]
fn kind_names_round_trip() {
    for kind in [
        ReplicatorKind::Sentinel,
        ReplicatorKind::Copy,
        ReplicatorKind::HardLink,
        ReplicatorKind::SoftLink,
    ] {
        assert_eq!(ReplicatorKind::parse(kind.name()).unwrap(), kind);
    }
}

#[test]
fn chain_orders_strategies() {
    let fallback = ReplicatorWithFallback::new(
        ReplicatorKind::SoftLink,
        ReplicatorWithFallback::from_kinds(vec![ReplicatorKind::Copy]),
    );
    let chain = ReplicatorWithFallback::new(ReplicatorKind::HardLink, fallback);

    assert_eq!(chain.count(), 3);
    assert_eq!(chain.kind_at(0), ReplicatorKind::HardLink);
    assert_eq!(chain.kind_at(1), ReplicatorKind::SoftLink);
    assert_eq!(chain.kind_at(2), ReplicatorKind::Copy);
}

#[test]
fn empty_chain_holds_nothing() {
    assert_eq!(ReplicatorWithFallback::empty().count(), 0);
}
