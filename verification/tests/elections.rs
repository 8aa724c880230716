use aleph_core::elections::{elect, migrate, GenesisConfig, Support, DEFAULT_COMMITTEE_SIZE};

#[test]
fn test_elect() {
    let elected = elect(&vec![1, 2], &Vec::new());
    assert!(elected.is_ok());

    let supp = Support {
        total: 0,
        voters: Vec::new(),
    };

    assert_eq!(elected.unwrap(), vec![(1, supp.clone()), (2, supp)]);
}

#[test]
fn elect_sums_votes_and_sorts_members() {
    let members = vec![2, 1];
    let voters = vec![
        (10, 5, vec![1]),
        (11, 7, vec![1]),
        (12, 3, vec![99]),
        (13, 2, vec![2]),
    ];
    let elected = elect(&members, &voters).unwrap();
    assert_eq!(elected.len(), 2);
    assert_eq!(
        elected[0],
        (
            1,
            Support {
                total: 12,
                voters: vec![(10, 5), (11, 7)],
            }
        )
    );
    assert_eq!(
        elected[1],
        (
            2,
            Support {
                total: 2,
                voters: vec![(13, 2)],
            }
        )
    );
}

#[test]
fn elect_collapses_duplicate_members() {
    let elected = elect(&vec![4, 4, 4], &Vec::new()).unwrap();
    assert_eq!(elected.len(), 1);
    assert_eq!(elected[0].0, 4);
}

#[test]
fn genesis_config_default_is_empty_with_default_committee() {
    let config = GenesisConfig::default();
    assert!(config.members.is_empty());
    assert!(config.next_era_reserved_validators.is_empty());
    assert_eq!(config.committee_size, DEFAULT_COMMITTEE_SIZE);
}

#[test]
fn migrate_reserves_all_old_members() {
    let migrated = migrate(vec![7, 8, 9]);
    assert_eq!(migrated.members_per_session, 3);
    assert_eq!(migrated.reserved_members, vec![7, 8, 9]);
    assert!(migrated.non_reserved_members.is_empty());
    assert_eq!(migrated.eras_members, (vec![7, 8, 9], Vec::new()));
}
