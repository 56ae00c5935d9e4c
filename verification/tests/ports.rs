use holomess::errors::ErrorKind;
use holomess::ports::PortRange;
use holomess::ports::allocate_port;

#[test]
fn allocated_port_lies_in_the_range() {
    let range = PortRange { min: 39000, max: 64000 };
    let port = allocate_port(range).expect("a wide range must hold a free port");
    assert!(range.min <= port && port <= range.max);
}

#[test]
fn empty_range_is_exhausted() {
    let range = PortRange { min: 5, max: 4 };
    assert!(range.is_empty());
    let err = allocate_port(range).unwrap_err();
    assert_eq!(err.kind, ErrorKind::ResourceExhausted);
    assert!(err.detail.is_none());
}

#[test]
fn single_port_range_is_not_empty() {
    let range = PortRange { min: 40000, max: 40000 };
    assert!(!range.is_empty());
}
