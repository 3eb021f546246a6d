//! Reading a replication strategy from its name.

use tuxedo::ReplicationStrategy;

#[test]
fn lowercase_names_are_read() {
    assert_eq!(ReplicationStrategy::try_from("clone".to_string()), Ok(ReplicationStrategy::Clone));
    assert_eq!(ReplicationStrategy::try_from("mask".to_string()), Ok(ReplicationStrategy::Mask));
}

#[test]
fn names_are_read_whatever_their_case() {
    assert_eq!(ReplicationStrategy::try_from("CLONE".to_string()), Ok(ReplicationStrategy::Clone));
    assert_eq!(ReplicationStrategy::try_from("Mask".to_string()), Ok(ReplicationStrategy::Mask));
    assert_eq!(ReplicationStrategy::try_from("mAsK".to_string()), Ok(ReplicationStrategy::Mask));
}

#[test]
fn other_names_are_refused_with_their_lowercase_form() {
    assert_eq!(
        ReplicationStrategy::try_from("Copy".to_string()),
        Err("copy is not a supported replication strategy.".to_string())
    );
    assert_eq!(
        ReplicationStrategy::try_from("".to_string()),
        Err(" is not a supported replication strategy.".to_string())
    );
    assert_eq!(
        ReplicationStrategy::try_from(" mask".to_string()),
        Err(" mask is not a supported replication strategy.".to_string())
    );
}

#[test]
fn from_lowercase_does_not_fold_case() {
    assert_eq!(ReplicationStrategy::from_lowercase("mask"), Ok(ReplicationStrategy::Mask));
    assert_eq!(ReplicationStrategy::from_lowercase("clone"), Ok(ReplicationStrategy::Clone));
    assert_eq!(
        ReplicationStrategy::from_lowercase("MASK"),
        Err("MASK is not a supported replication strategy.".to_string())
    );
}
