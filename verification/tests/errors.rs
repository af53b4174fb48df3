use entropy_gateway::error::{negate, ErrorKind, EAGAIN, EINTR, EINVAL, ENOSYS, NO_CODE};

#[test]
fn codes_are_those_of_the_generic_abi() {
    assert_eq!(EINTR, 4);
    assert_eq!(EAGAIN, 11);
    assert_eq!(EINVAL, 22);
    assert_eq!(ENOSYS, 38);
}

#[test]
fn from_return_classifies_the_three_known_codes() {
    assert_eq!(ErrorKind::from_return(-11), ErrorKind::WouldBlock);
    assert_eq!(ErrorKind::from_return(-22), ErrorKind::InvalidArgument);
    assert_eq!(ErrorKind::from_return(-38), ErrorKind::Unsupported);
}

#[test]
fn from_return_keeps_every_other_code() {
    assert_eq!(ErrorKind::from_return(-5), ErrorKind::Unknown(5));
    assert_eq!(ErrorKind::from_return(-12), ErrorKind::Unknown(12));
    assert_eq!(ErrorKind::from_return(-14), ErrorKind::Unknown(14));
    assert_eq!(ErrorKind::from_return(-1), ErrorKind::Unknown(1));
    assert_eq!(ErrorKind::from_return(-i64::MAX), ErrorKind::Unknown(i64::MAX));
}

#[test]
fn from_return_without_a_code_is_unknown_without_a_code() {
    assert_eq!(NO_CODE, i64::MIN);
    assert_eq!(ErrorKind::from_return(NO_CODE), ErrorKind::Unknown(NO_CODE));
}

#[test]
fn negate_gives_the_negation_and_keeps_the_one_value_without() {
    assert_eq!(negate(14), -14);
    assert_eq!(negate(-14), 14);
    assert_eq!(negate(0), 0);
    assert_eq!(negate(i64::MAX), -i64::MAX);
    assert_eq!(negate(i64::MIN), i64::MIN);
    assert_eq!(negate(negate(-38)), -38);
}

#[test]
fn raw_return_gives_the_value_back() {
    assert_eq!(ErrorKind::WouldBlock.raw_return(), -11);
    assert_eq!(ErrorKind::InvalidArgument.raw_return(), -22);
    assert_eq!(ErrorKind::Unsupported.raw_return(), -38);
    assert_eq!(ErrorKind::Unknown(71).raw_return(), -71);
    assert_eq!(ErrorKind::Unknown(-9).raw_return(), 9);
    assert_eq!(ErrorKind::Unknown(NO_CODE).raw_return(), NO_CODE);
}

#[test]
fn kind_keeps_the_returned_value() {
    let mut ret: i64 = -200;
    while ret < 0 {
        if ret != -EINTR {
            assert_eq!(ErrorKind::from_return(ret).raw_return(), ret);
        }
        ret += 1;
    }
}
