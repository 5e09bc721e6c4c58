use payment_reconciliation::canonical::CanonicalStatus;

const ALL: [CanonicalStatus; 9] = [
    CanonicalStatus::Created,
    CanonicalStatus::AuthenticationPending,
    CanonicalStatus::Authorized,
    CanonicalStatus::PartialCharge,
    CanonicalStatus::Pending,
    CanonicalStatus::Charged,
    CanonicalStatus::Failure,
    CanonicalStatus::Voided,
    CanonicalStatus::Unresolved,
];

#[test]
fn terminal_statuses_are_exactly_four() {
    let terminal: Vec<CanonicalStatus> = ALL.iter().copied().filter(|s| s.is_terminal()).collect();
    assert_eq!(
        terminal,
        vec![
            CanonicalStatus::Charged,
            CanonicalStatus::Failure,
            CanonicalStatus::Voided,
            CanonicalStatus::Unresolved,
        ]
    );
}

#[test]
fn happy_path_is_four_arrows() {
    assert!(CanonicalStatus::Created.has_edge_to(CanonicalStatus::AuthenticationPending));
    assert!(CanonicalStatus::AuthenticationPending.has_edge_to(CanonicalStatus::Authorized));
    assert!(CanonicalStatus::Authorized.has_edge_to(CanonicalStatus::Charged));
    assert!(!CanonicalStatus::Created.has_edge_to(CanonicalStatus::Charged));
    assert!(CanonicalStatus::Created.can_reach(CanonicalStatus::Charged));
}

#[test]
fn branches_of_the_graph() {
    assert!(CanonicalStatus::AuthenticationPending.has_edge_to(CanonicalStatus::Failure));
    assert!(CanonicalStatus::Authorized.has_edge_to(CanonicalStatus::Voided));
    assert!(CanonicalStatus::Authorized.has_edge_to(CanonicalStatus::PartialCharge));
    assert!(CanonicalStatus::Pending.has_edge_to(CanonicalStatus::Charged));
    assert!(CanonicalStatus::Pending.has_edge_to(CanonicalStatus::Failure));
    assert!(CanonicalStatus::Pending.has_edge_to(CanonicalStatus::Voided));
    assert!(!CanonicalStatus::Pending.has_edge_to(CanonicalStatus::Authorized));
    assert!(!CanonicalStatus::Authorized.has_edge_to(CanonicalStatus::Failure));
}

#[test]
fn every_non_terminal_status_may_become_unresolved() {
    for s in ALL {
        assert_eq!(s.has_edge_to(CanonicalStatus::Unresolved), !s.is_terminal());
        assert_eq!(s.can_reach(CanonicalStatus::Unresolved), !s.is_terminal());
    }
}

#[test]
fn nothing_leaves_a_terminal_status() {
    for from in ALL {
        if from.is_terminal() {
            for to in ALL {
                assert!(!from.has_edge_to(to));
                assert!(!from.can_reach(to));
            }
        }
    }
}

#[test]
fn charged_cannot_go_back_to_authorized() {
    assert!(!CanonicalStatus::Charged.can_reach(CanonicalStatus::Authorized));
    assert!(!CanonicalStatus::Charged.has_edge_to(CanonicalStatus::Authorized));
}

#[test]
fn reachability_is_the_closure_of_the_arrows() {
    // Computes the closure of `has_edge_to` by repeated composition and
    // compares it with `can_reach`, pair by pair.
    let n = ALL.len();
    let mut closure = vec![vec![false; n]; n];
    for i in 0..n {
        for j in 0..n {
            closure[i][j] = ALL[i].has_edge_to(ALL[j]);
        }
    }
    for k in 0..n {
        for i in 0..n {
            for j in 0..n {
                if closure[i][k] && closure[k][j] {
                    closure[i][j] = true;
                }
            }
        }
    }
    for i in 0..n {
        for j in 0..n {
            assert_eq!(ALL[i].can_reach(ALL[j]), closure[i][j], "{:?} -> {:?}", ALL[i], ALL[j]);
        }
    }
}

#[test]
fn no_status_reaches_itself_or_goes_back() {
    for a in ALL {
        assert!(!a.can_reach(a));
        for b in ALL {
            assert!(!(a.can_reach(b) && b.can_reach(a)));
        }
    }
}

#[test]
fn nothing_enters_pending() {
    for from in ALL {
        assert!(!from.can_reach(CanonicalStatus::Pending));
    }
}

#[test]
fn reachable_sets_written_out() {
    let from_created: Vec<CanonicalStatus> =
        ALL.iter().copied().filter(|s| CanonicalStatus::Created.can_reach(*s)).collect();
    assert_eq!(
        from_created,
        vec![
            CanonicalStatus::AuthenticationPending,
            CanonicalStatus::Authorized,
            CanonicalStatus::PartialCharge,
            CanonicalStatus::Charged,
            CanonicalStatus::Failure,
            CanonicalStatus::Voided,
            CanonicalStatus::Unresolved,
        ]
    );
    let from_authorized: Vec<CanonicalStatus> =
        ALL.iter().copied().filter(|s| CanonicalStatus::Authorized.can_reach(*s)).collect();
    assert_eq!(
        from_authorized,
        vec![
            CanonicalStatus::PartialCharge,
            CanonicalStatus::Charged,
            CanonicalStatus::Voided,
            CanonicalStatus::Unresolved,
        ]
    );
    let from_partial: Vec<CanonicalStatus> =
        ALL.iter().copied().filter(|s| CanonicalStatus::PartialCharge.can_reach(*s)).collect();
    assert_eq!(from_partial, vec![CanonicalStatus::Unresolved]);
}
