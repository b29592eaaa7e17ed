use kubchain::types::{is_span_commitment_block, is_span_first_block, system_address};

#[test]
fn test_span_first_block() {
    let span = 200;
    assert!(is_span_first_block(span, 0));
    assert!(is_span_first_block(span, 200));
    assert!(is_span_first_block(span, 400));
    assert!(!is_span_first_block(span, 1));
    assert!(!is_span_first_block(span, 199));
    assert!(!is_span_first_block(span, 201));
}

#[test]
fn test_span_commitment_block() {
    let span = 200;
    // span/2 + 1 = 101
    assert!(is_span_commitment_block(span, 101));
    assert!(is_span_commitment_block(span, 301));
    assert!(!is_span_commitment_block(span, 100));
    assert!(!is_span_commitment_block(span, 102));
    assert!(!is_span_commitment_block(span, 0));
}

#[test]
fn test_span_zero_safety() {
    assert!(!is_span_first_block(0, 0));
    assert!(!is_span_commitment_block(0, 0));
}

#[test]
fn test_system_address() {
    assert_eq!(
        format!("{:?}", alloy_primitives::Address::from(system_address().bytes)),
        "0xfffffffffffffffffffffffffffffffffffffffe"
    );
}

#[test]
fn span_commitment_block_odd_span() {
    // span 7: 7/2 + 1 = 4
    assert!(is_span_commitment_block(7, 4));
    assert!(is_span_commitment_block(7, 11));
    assert!(!is_span_commitment_block(7, 3));
    assert!(is_span_first_block(7, 14));
}
