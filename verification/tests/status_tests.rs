use file_transfer::status::{from_u8, to_u8, ProtocolError, Status};

#[test]
fn test_convertion() {
    let statuses = 4;
    for i in 0..statuses {
        assert_eq!(to_u8(from_u8(i).unwrap()), i);
    }
}

#[test]
fn test_all_statuses_round_trip() {
    let all = [
        Status::Okay,
        Status::Abort,
        Status::FileAlreadyExists,
        Status::NameError,
        Status::FileOpenError,
        Status::Stop,
    ];
    for (i, s) in all.iter().enumerate() {
        let b = to_u8(*s);
        assert_eq!(b as usize, i);
        assert_eq!(from_u8(b), Ok(*s));
    }
}

#[test]
fn test_bad_status_bytes_rejected() {
    for b in 6..=255u8 {
        assert_eq!(from_u8(b), Err(ProtocolError::BadStatusByte(b)));
    }
}
