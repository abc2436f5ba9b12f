use burnin::{with_pinned, AffinityCtl};

// These tests touch the real OS affinity mask of the test thread.  Pinning to
// the mask's own units keeps them safe to run anywhere.

#[test]
fn mask_restored_after_successful_body() {
    let mut ctl = AffinityCtl::new().expect("open affinity controller");
    let before = ctl.current_units().expect("read affinity");
    assert!(!before.is_empty());
    let outcome = with_pinned(&mut ctl, &before, |_pin| 41 + 1).expect("pin");
    assert_eq!(outcome.result, 42);
    assert!(outcome.restore_error.is_none());
    let after = ctl.current_units().expect("read affinity");
    assert_eq!(before, after);
}

#[test]
fn mask_restored_after_failing_body() {
    let mut ctl = AffinityCtl::new().expect("open affinity controller");
    let before = ctl.current_units().expect("read affinity");
    let outcome = with_pinned(&mut ctl, &before, |_pin| -> Result<(), String> {
        Err("build broke".to_string())
    })
    .expect("pin");
    assert!(outcome.result.is_err());
    assert!(outcome.restore_error.is_none());
    let after = ctl.current_units().expect("read affinity");
    assert_eq!(before, after);
}

#[test]
fn pin_to_one_unit_and_back() {
    let mut ctl = AffinityCtl::new().expect("open affinity controller");
    let before = ctl.current_units().expect("read affinity");
    let one = vec![before[0]];
    let outcome = with_pinned(&mut ctl, &one, |_pin| {
        let probe = AffinityCtl::new().expect("open probe controller");
        probe.current_units().expect("read affinity inside pin")
    })
    .expect("pin");
    assert_eq!(outcome.result, one);
    assert!(outcome.restore_error.is_none());
    let after = ctl.current_units().expect("read affinity");
    assert_eq!(before, after);
}

#[test]
fn pin_error_names_failed_operation() {
    let mut ctl = AffinityCtl::new().expect("open affinity controller");
    let before = ctl.current_units().expect("read affinity");
    // An empty unit list cannot be applied, so the pin fails before the body
    // runs and the error names the set operation; the mask stays as it was.
    let e = with_pinned(&mut ctl, &vec![], |_pin| 1).unwrap_err();
    assert!(e.message.starts_with("failed to set affinity: "));
    let after = ctl.current_units().expect("read affinity");
    assert_eq!(before, after);
}

#[test]
fn host_core_listing() {
    let (n, cores) = burnin::cli::host_default_cores();
    assert!(n >= 1);
    assert_eq!(cores.len(), n);
    for (i, c) in cores.iter().enumerate() {
        assert_eq!(*c, i);
    }
}
