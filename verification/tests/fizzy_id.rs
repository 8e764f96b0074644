use sparkling::domain::value_objects::{FizzyId, FizzyIdError};

#[test]
fn test_generate_fizzy_id_length() {
    let id = FizzyId::generate();
    assert_eq!(id.as_str().len(), 25);
}

#[test]
fn test_fizzy_id_is_lowercase_alphanumeric() {
    let id = FizzyId::generate();
    assert!(id
        .as_str()
        .chars()
        .all(|c| c.is_ascii_lowercase() || c.is_ascii_digit()));
}

#[test]
fn test_fizzy_id_uniqueness() {
    let id1 = FizzyId::generate();
    let id2 = FizzyId::generate();
    assert_ne!(id1, id2);
}

#[test]
fn generated_ids_sort_in_order_of_generation() {
    let mut previous = FizzyId::generate();
    for _ in 0..200 {
        let next = FizzyId::generate();
        assert!(previous.as_str() < next.as_str());
        previous = next;
    }
}

#[test]
fn to_base36_of_known_values() {
    assert_eq!(FizzyId::to_base36(0), "0");
    assert_eq!(FizzyId::to_base36(35), "z");
    assert_eq!(FizzyId::to_base36(36), "10");
    assert_eq!(FizzyId::to_base36(1295), "zz");
    assert_eq!(FizzyId::to_base36(123456789), "21i3v9");
    assert_eq!(FizzyId::to_base36(u128::MAX), "f5lxx1zz5pnorynqglhzmsp33");
}

#[test]
fn from_base36_of_known_values() {
    assert_eq!(FizzyId::from_base36(""), Ok(0));
    assert_eq!(FizzyId::from_base36("0"), Ok(0));
    assert_eq!(FizzyId::from_base36("10"), Ok(36));
    assert_eq!(FizzyId::from_base36("21i3v9"), Ok(123456789));
    assert_eq!(FizzyId::from_base36("21I3V9"), Ok(123456789));
    assert_eq!(FizzyId::from_base36("f5lxx1zz5pnorynqglhzmsp33"), Ok(u128::MAX));
    assert_eq!(FizzyId::from_base36("00000000000000000000000000000z"), Ok(35));
}

#[test]
fn from_base36_reports_the_first_failure() {
    assert_eq!(FizzyId::from_base36("12-4"), Err(FizzyIdError::InvalidChar('-')));
    assert_eq!(FizzyId::from_base36("f5lxx1zz5pnorynqglhzmsp34"), Err(FizzyIdError::Overflow));
    assert_eq!(FizzyId::from_base36("zzzzzzzzzzzzzzzzzzzzzzzzz"), Err(FizzyIdError::Overflow));
    // the overflow comes before the character that is no digit
    assert_eq!(FizzyId::from_base36("zzzzzzzzzzzzzzzzzzzzzzzzz!"), Err(FizzyIdError::Overflow));
    assert_eq!(FizzyId::from_base36("!zzzzzzzzzzzzzzzzzzzzzzzzz"), Err(FizzyIdError::InvalidChar('!')));
}

#[test]
fn from_number_pads_to_full_width() {
    assert_eq!(FizzyId::from_number(0).as_str(), "0000000000000000000000000");
    assert_eq!(FizzyId::from_number(36).as_str(), "0000000000000000000000010");
    assert_eq!(FizzyId::from_number(u128::MAX).as_str(), "f5lxx1zz5pnorynqglhzmsp33");
}

#[test]
fn parse_accepts_exactly_well_formed_ids() {
    let text = "03f5w8xk2m9q0000000000abc";
    let id = FizzyId::parse(text).unwrap();
    assert_eq!(id.as_str(), text);
    assert_eq!(FizzyId::parse(&id.to_string()).unwrap(), id);
    assert_eq!(FizzyId::parse(""), Err(FizzyIdError::InvalidFormat));
    assert_eq!(FizzyId::parse("abc"), Err(FizzyIdError::InvalidFormat));
    assert_eq!(FizzyId::parse("03F5W8XK2M9Q0000000000ABC"), Err(FizzyIdError::InvalidFormat));
    assert_eq!(FizzyId::parse("03f5w8xk2m9q0000000000ab"), Err(FizzyIdError::InvalidFormat));
    assert_eq!(FizzyId::parse("03f5w8xk2m9q0000000000abcd"), Err(FizzyIdError::InvalidFormat));
    assert_eq!(FizzyId::parse("03f5w8xk2m9q0000000000ab_"), Err(FizzyIdError::InvalidFormat));
    assert_eq!(FizzyId::parse("03f5w8xk2m9q0000000000ab\u{e9}"), Err(FizzyIdError::InvalidFormat));
}

#[test]
fn parse_round_trips_generated_ids() {
    for _ in 0..50 {
        let id = FizzyId::generate();
        assert_eq!(FizzyId::parse(id.as_str()), Ok(id.clone()));
    }
}

#[test]
fn storage_form_of_known_values() {
    let one = FizzyId::from_number(1);
    let mut expected = vec![0u8; 16];
    expected[15] = 1;
    assert_eq!(one.to_storage_form(), Ok(expected));
    let big = FizzyId::from_number(0x0102030405060708090a0b0c0d0e0f10);
    assert_eq!(
        big.to_storage_form(),
        Ok(vec![1, 2, 3, 4, 5, 6, 7, 8, 9, 10, 11, 12, 13, 14, 15, 16])
    );
    assert_eq!(
        FizzyId::from_storage_form(&[1, 2, 3, 4, 5, 6, 7, 8, 9, 10, 11, 12, 13, 14, 15, 16]),
        Ok(big)
    );
}

#[test]
fn storage_form_round_trips() {
    for _ in 0..50 {
        let id = FizzyId::generate();
        let bytes = id.to_storage_form().unwrap();
        assert_eq!(bytes.len(), 16);
        assert_eq!(FizzyId::from_storage_form(&bytes), Ok(id));
    }
    for n in [0u128, 1, 35, 36, u64::MAX as u128, u128::MAX - 1, u128::MAX] {
        let id = FizzyId::from_number(n);
        let bytes = id.to_storage_form().unwrap();
        assert_eq!(bytes, n.to_be_bytes().to_vec());
        assert_eq!(FizzyId::from_storage_form(&bytes), Ok(id));
    }
}

#[test]
fn storage_form_failures() {
    assert_eq!(FizzyId::from_storage_form(&[]), Err(FizzyIdError::InvalidLength(0)));
    assert_eq!(FizzyId::from_storage_form(&[0u8; 15]), Err(FizzyIdError::InvalidLength(15)));
    assert_eq!(FizzyId::from_storage_form(&[0u8; 17]), Err(FizzyIdError::InvalidLength(17)));
    // a well-formed text whose number does not fit in 128 bits
    let too_big = FizzyId::parse("zzzzzzzzzzzzzzzzzzzzzzzzz").unwrap();
    assert_eq!(too_big.to_storage_form(), Err(FizzyIdError::Overflow));
    let unchecked = FizzyId::new("not an id".to_string());
    assert_eq!(unchecked.to_storage_form(), Err(FizzyIdError::InvalidChar(' ')));
}

#[test]
fn ids_order_as_their_numbers() {
    let values = [0u128, 1, 35, 36, 1295, 1296, 1 << 64, (1 << 64) + 1, u128::MAX - 1, u128::MAX];
    for pair in values.windows(2) {
        let a = FizzyId::from_number(pair[0]);
        let b = FizzyId::from_number(pair[1]);
        assert!(a.as_str() < b.as_str());
    }
}

#[test]
fn new_wraps_any_text() {
    let id = FizzyId::new("anything".to_string());
    assert_eq!(id.as_str(), "anything");
    assert_eq!(id.clone().into_inner(), "anything");
    assert_eq!(id.to_string(), "anything");
}
