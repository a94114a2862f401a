use rcp::faultinject::{FaultInjectEndpoint, FaultRule, FaultSpec};
use rcp::mock::{Endpoint, MockEndpoint};
use rcp::regmap::EndpointType;
use rcp::RcpError;



fn fi() -> FaultInjectEndpoint<MockEndpoint> {
    let inner = MockEndpoint::new(EndpointType::Gpio, vec![0u8; 4]);
    FaultInjectEndpoint::new(inner)
}

#[test]
fn no_fault_passes_through() {
    let mut fi = fi();
    fi.write(b"x").unwrap();
}

#[test]
fn always_fault_injects_every_call() {
    let mut fi = fi();
    fi.inject(FaultSpec {
        rule: FaultRule::Always,
        error: RcpError::Timeout,
    });
    for _ in 0..3 {
        let err = fi.write(b"x").unwrap_err();
        assert_eq!(err, RcpError::Timeout);
    }
}

#[test]
fn nth_call_fault_triggers_only_on_n() {
    let mut fi = fi();
    fi.inject(FaultSpec {
        rule: FaultRule::OnNthCall(2),
        error: RcpError::Busy,
    });
    fi.write(b"x").unwrap(); // call 1 — ok
    let err = fi.write(b"x").unwrap_err(); // call 2 — fault
    assert_eq!(err, RcpError::Busy);
    fi.write(b"x").unwrap(); // call 3 — ok again
}

#[test]
fn after_nth_call_triggers_from_n_onwards() {
    let mut fi = fi();
    fi.inject(FaultSpec {
        rule: FaultRule::AfterNthCall(3),
        error: RcpError::NotConnected,
    });
    fi.write(b"x").unwrap(); // 1 — ok
    fi.write(b"x").unwrap(); // 2 — ok
    let e = fi.write(b"x").unwrap_err(); // 3 — fault
    assert_eq!(e, RcpError::NotConnected);
    let e = fi.read(1).unwrap_err(); // 4 — fault (shared counter)
    assert_eq!(e, RcpError::NotConnected);
}

#[test]
fn inject_multiple_rules_first_match_wins() {
    let mut fi = fi();
    fi.inject(FaultSpec {
        rule: FaultRule::OnNthCall(1),
        error: RcpError::Timeout,
    });
    fi.inject(FaultSpec {
        rule: FaultRule::Always,
        error: RcpError::Busy,
    });
    let err = fi.write(b"x").unwrap_err();
    // First matching rule wins (OnNthCall(1) matches on call 1)
    assert_eq!(err, RcpError::Timeout);
}

#[test]
fn clear_removes_all_faults() {
    let mut fi = fi();
    fi.inject(FaultSpec {
        rule: FaultRule::Always,
        error: RcpError::Timeout,
    });
    fi.clear();
    fi.write(b"x").unwrap();
}

#[test]
fn call_count_tracks_both_ops() {
    let mut fi = fi();
    fi.write(b"x").unwrap();
    fi.read(1).unwrap();
    assert_eq!(fi.call_count(), 2);
}

#[test]
fn faulted_call_leaves_inner_endpoint_untouched() {
    let mut fi = fi();
    fi.inject(FaultSpec {
        rule: FaultRule::OnNthCall(1),
        error: RcpError::Busy,
    });
    assert_eq!(fi.write(&[9, 9]).unwrap_err(), RcpError::Busy);
    // The faulted write never reached the inner endpoint.
    assert_eq!(fi.read(4).unwrap(), vec![0u8; 4]);
    fi.write(&[1, 2, 3]).unwrap();
    assert_eq!(fi.read(8).unwrap(), vec![1, 2, 3]);
    assert_eq!(fi.call_count(), 4);
}

#[test]
fn faulted_calls_are_counted() {
    let mut fi = fi();
    fi.inject(FaultSpec {
        rule: FaultRule::Always,
        error: RcpError::Timeout,
    });
    let _ = fi.write(b"x");
    let _ = fi.read(1);
    let _ = fi.read(1);
    assert_eq!(fi.call_count(), 3);
}

#[test]
fn later_rule_fires_when_earlier_does_not() {
    let mut fi = fi();
    fi.inject(FaultSpec {
        rule: FaultRule::OnNthCall(5),
        error: RcpError::Timeout,
    });
    fi.inject(FaultSpec {
        rule: FaultRule::AfterNthCall(2),
        error: RcpError::Busy,
    });
    fi.write(b"x").unwrap();
    assert_eq!(fi.write(b"x").unwrap_err(), RcpError::Busy);
    assert_eq!(fi.write(b"x").unwrap_err(), RcpError::Busy);
    assert_eq!(fi.write(b"x").unwrap_err(), RcpError::Busy);
    assert_eq!(fi.write(b"x").unwrap_err(), RcpError::Timeout);
}

#[test]
fn injected_other_error_keeps_its_text() {
    let mut fi = fi();
    fi.inject(FaultSpec {
        rule: FaultRule::Always,
        error: RcpError::Other("bus stuck".to_string()),
    });
    assert_eq!(
        fi.read(1).unwrap_err(),
        RcpError::Other("bus stuck".to_string())
    );
}

#[test]
fn ep_type_is_the_inner_type() {
    let fi = fi();
    assert_eq!(fi.ep_type(), EndpointType::Gpio);
}
