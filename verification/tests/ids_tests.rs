use irs::ids::ServerId;
use irs::ids::UserId;
use irs::ids::IdParseError;

#[test]
fn server_id_valid_round_trip() {
    for s in ["000", "0AZ", "9ZZ", "123", "0XY", "500"] {
        let sid = ServerId::parse(s).expect(s);
        let text: String = sid.into_string();
        assert_eq!(text, s);
        let chars: Vec<char> = sid.to_vec();
        assert_eq!(chars, s.chars().collect::<Vec<char>>());
        assert!(ServerId::is_server_id(s));
    }
}

#[test]
fn server_id_invalid_rejected() {
    for s in ["", "00", "0000", "A00", "0a0", "00-", "z00", "0 0", "①00"] {
        assert_eq!(ServerId::parse(s), Err(IdParseError::InvalidFormat), "{s}");
        assert!(!ServerId::is_server_id(s));
    }
}

#[test]
fn user_id_parses_iff_nine_chars_with_server_id_prefix() {
    let uid = UserId::parse("000AAAAAA").unwrap();
    assert_eq!(uid.into_string(), "000AAAAAA");
    assert_eq!(uid.get_server_id().into_string(), "000");
    assert_eq!(uid.get_id(), "AAAAAA".chars().collect::<Vec<char>>());
    assert_eq!(uid.to_vec(), "000AAAAAA".chars().collect::<Vec<char>>());

    // wrong length
    assert!(UserId::parse("000AAAAA").is_err());
    assert!(UserId::parse("000AAAAAAA").is_err());
    assert!(UserId::parse("").is_err());
    // nine characters, but the prefix is no server identifier
    assert!(UserId::parse("A00AAAAAA").is_err());
    assert!(UserId::parse("0a0AAAAAA").is_err());
    // the suffix characters are unconstrained
    assert!(UserId::parse("000!!!!!!").is_ok());
}

#[test]
fn user_id_equality_by_characters() {
    let a = UserId::parse("000AAAAAA").unwrap();
    let b = UserId::parse("000AAAAAA").unwrap();
    let c = UserId::parse("000AAAAAB").unwrap();
    assert!(a.same_as(&b));
    assert!(!a.same_as(&c));
}
