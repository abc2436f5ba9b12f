use burnin::units::{units_for, units_for_many};

#[test]
fn units_for_core_zero() {
    let u = units_for(0, 4);
    assert_eq!(u, vec![0, 4]);
}

#[test]
fn units_for_last_core() {
    let u = units_for(3, 4);
    assert_eq!(u, vec![3, 7]);
}

#[test]
fn units_for_never_duplicates() {
    for c in 0..8 {
        let u = units_for(c, 8);
        assert_eq!(u.len(), 2);
        assert_ne!(u[0], u[1]);
    }
}

#[test]
fn units_for_single_core_host() {
    let u = units_for(0, 1);
    assert_eq!(u, vec![0, 1]);
}

#[test]
fn units_for_many_in_core_order() {
    let u = units_for_many(&vec![0, 1], 4);
    assert_eq!(u, vec![0, 4, 1, 5]);
}

#[test]
fn units_for_many_empty() {
    let u = units_for_many(&vec![], 4);
    assert!(u.is_empty());
}

#[test]
fn units_for_many_unordered_cores() {
    let u = units_for_many(&vec![2, 0], 3);
    assert_eq!(u, vec![2, 5, 0, 3]);
}
