use asha::model::{DecodeError, ReadOnlyProperties};
use asha::session::{decode_all, validate_selection, SelectionError};

#[test]
fn selection_in_range() {
    assert_eq!(validate_selection(5, 0), Ok(0));
    assert_eq!(validate_selection(5, 4), Ok(4));
}

#[test]
fn selection_out_of_range() {
    assert_eq!(
        validate_selection(5, 5),
        Err(SelectionError::OutOfRange { len: 5, index: 5 })
    );
    assert_eq!(
        validate_selection(0, 0),
        Err(SelectionError::OutOfRange { len: 0, index: 0 })
    );
}

#[test]
fn mixed_payloads_decode_independently() {
    let valid_a = vec![0u8; 17];
    let mut valid_b = vec![0u8; 17];
    valid_b[0] = 9;
    let short = vec![0u8; 3];
    let long = vec![0u8; 18];

    let payloads = vec![valid_a.clone(), short, valid_b.clone(), long];
    let outcomes = decode_all(&payloads);

    assert_eq!(outcomes.len(), 4);
    assert_eq!(outcomes[0], Ok(ReadOnlyProperties::decode(&valid_a).unwrap()));
    assert_eq!(
        outcomes[1],
        Err(DecodeError::InvalidLength { expected: 17, actual: 3 })
    );
    assert_eq!(outcomes[2], Ok(ReadOnlyProperties::decode(&valid_b).unwrap()));
    assert_eq!(
        outcomes[3],
        Err(DecodeError::InvalidLength { expected: 17, actual: 18 })
    );
    assert_eq!(outcomes[2].unwrap().version, 9);
}

#[test]
fn empty_payload_sequence() {
    let payloads: Vec<Vec<u8>> = Vec::new();
    assert_eq!(decode_all(&payloads).len(), 0);
}
