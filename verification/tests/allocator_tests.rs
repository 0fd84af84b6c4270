use irs::userid_gen::UidIncreaseError;
use irs::userid_gen::UserIdGenerator;

fn chars(s: &str) -> Vec<char> {
    s.chars().collect()
}

#[test]
fn first_three_suffixes() {
    let mut g = UserIdGenerator::new();
    assert_eq!(g.increase_user_id().unwrap(), chars("AAAAAA"));
    assert_eq!(g.increase_user_id().unwrap(), chars("AAAAAB"));
    assert_eq!(g.increase_user_id().unwrap(), chars("AAAAAC"));
}

#[test]
fn letter_carry_propagates() {
    let mut g = UserIdGenerator::new();
    g.manually_set_user_id(chars("AAAAZZ"));
    assert_eq!(g.increase_user_id().unwrap(), chars("AAABAA"));
}

#[test]
fn letter_overflow_enters_numeral_phase_at_a00001() {
    let mut g = UserIdGenerator::new();
    g.manually_set_user_id(chars("ZZZZZY"));
    assert_eq!(g.increase_user_id().unwrap(), chars("ZZZZZZ"));
    // the numeral phase is seeded and incremented once: never "A00000"
    assert_eq!(g.increase_user_id().unwrap(), chars("A00001"));
    assert_eq!(g.increase_user_id().unwrap(), chars("A00002"));
}

#[test]
fn numeral_digit_overflow_bumps_letter_and_skips_zero() {
    let mut g = UserIdGenerator::new();
    g.manually_set_user_id(chars("ZZZZZY"));
    g.increase_user_id().unwrap();
    g.increase_user_id().unwrap();
    g.manually_set_user_id(chars("A99999"));
    assert_eq!(g.increase_user_id().unwrap(), chars("B00001"));
}

#[test]
fn exhaustion_fails_and_keeps_failing() {
    let mut g = UserIdGenerator::new();
    g.manually_set_user_id(chars("ZZZZZY"));
    g.increase_user_id().unwrap();
    g.increase_user_id().unwrap();
    g.manually_set_user_id(chars("Z99998"));
    assert_eq!(g.increase_user_id().unwrap(), chars("Z99999"));
    assert_eq!(g.increase_user_id(), Err(UidIncreaseError::UserCapReached));
    assert_eq!(g.increase_user_id(), Err(UidIncreaseError::UserCapReached));
}

#[test]
fn test_user_id_generator() {
    let mut g = UserIdGenerator::new();
    while let Ok(userid) = g.increase_user_id() {
        if userid == ['A', 'B', 'C', 'D', 'E', 'F'] {
            g.manually_set_user_id(['Z', 'Z', 'Z', 'Z', 'Z', 'Y'].to_vec());
            break;
        }
    }

    while let Ok(userid) = g.increase_user_id() {
        if userid == ['A', '1', '2', '3', '4', '5'] {
            // ff a bit
            g.manually_set_user_id(['Z', '1', '2', '3', '4', '5'].to_vec());
        }
    }
}
