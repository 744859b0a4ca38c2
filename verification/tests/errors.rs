use phidget::errors::ReturnCode;

const TABLE: [(u32, ReturnCode); 53] = [
    (0, ReturnCode::Success),
    (1, ReturnCode::Perm),
    (2, ReturnCode::NoEnt),
    (3, ReturnCode::Timeout),
    (4, ReturnCode::Interrupted),
    (5, ReturnCode::Io),
    (6, ReturnCode::NoMemory),
    (7, ReturnCode::Access),
    (8, ReturnCode::Fault),
    (9, ReturnCode::Busy),
    (10, ReturnCode::Exist),
    (11, ReturnCode::NotDir),
    (12, ReturnCode::IsDir),
    (13, ReturnCode::Invalid),
    (14, ReturnCode::NFile),
    (15, ReturnCode::MFile),
    (16, ReturnCode::NoSPC),
    (17, ReturnCode::FBig),
    (18, ReturnCode::ROFS),
    (19, ReturnCode::RO),
    (20, ReturnCode::Unsupported),
    (21, ReturnCode::InvalidArg),
    (22, ReturnCode::Again),
    (26, ReturnCode::NotEmpty),
    (27, ReturnCode::Duplicate),
    (28, ReturnCode::Unexpected),
    (31, ReturnCode::Eof),
    (35, ReturnCode::ConnRef),
    (37, ReturnCode::BadPassword),
    (40, ReturnCode::NoDev),
    (41, ReturnCode::Pipe),
    (44, ReturnCode::Resolv),
    (45, ReturnCode::NetUnavail),
    (46, ReturnCode::ConnReset),
    (48, ReturnCode::HostUnreach),
    (50, ReturnCode::WrongDevice),
    (51, ReturnCode::UnknownVal),
    (52, ReturnCode::NotAttached),
    (53, ReturnCode::InvalidPacket),
    (54, ReturnCode::TooBig),
    (55, ReturnCode::BadVersion),
    (56, ReturnCode::Closed),
    (57, ReturnCode::NotConfigured),
    (58, ReturnCode::KeepAlive),
    (59, ReturnCode::Failsafe),
    (60, ReturnCode::UnknownValHigh),
    (61, ReturnCode::UnknownValLow),
    (62, ReturnCode::BadPower),
    (63, ReturnCode::PowerCycle),
    (64, ReturnCode::HallSensor),
    (65, ReturnCode::BadCurrent),
    (66, ReturnCode::BadConnection),
    (67, ReturnCode::Nack),
];

#[test]
fn every_code_of_the_table_names_its_kind() {
    for (code, kind) in TABLE {
        assert_eq!(ReturnCode::from(code), kind);
        assert_eq!(kind.code(), code);
    }
}

#[test]
fn every_code_of_the_table_comes_back_from_its_result() {
    for (code, kind) in TABLE {
        match ReturnCode::result(code) {
            Ok(()) => assert_eq!(code, 0),
            Err(e) => {
                assert_eq!(e, kind);
                assert_eq!(e.code(), code);
            }
        }
    }
}

#[test]
fn code_zero_is_ok() {
    assert_eq!(ReturnCode::result(0), Ok(()));
}

#[test]
fn timeout_code_is_the_timeout_error() {
    assert_eq!(ReturnCode::result(3), Err(ReturnCode::Timeout));
    assert_eq!(ReturnCode::result(21), Err(ReturnCode::InvalidArg));
    assert_eq!(ReturnCode::result(52), Err(ReturnCode::NotAttached));
}

#[test]
fn codes_outside_the_table_are_unexpected() {
    for code in [23u32, 24, 25, 29, 30, 32, 36, 47, 49, 68, 100, 0xffff, u32::MAX] {
        assert_eq!(ReturnCode::from(code), ReturnCode::Unexpected);
        assert_eq!(ReturnCode::result(code), Err(ReturnCode::Unexpected));
    }
}

#[test]
fn only_the_table_is_known() {
    let known = (0u32..=1000)
        .filter(|c| ReturnCode::from(*c).code() == *c)
        .count();
    assert_eq!(known, TABLE.len());
}

#[test]
fn kinds_are_ordered_by_their_codes() {
    for pair in TABLE.windows(2) {
        assert!(pair[0].1 < pair[1].1);
        assert!(pair[0].0 < pair[1].0);
    }
}
