use file_transfer::codec::{
    convert_name, decode_batch_header, decode_file_header, encode_batch_header,
    encode_file_header, EncodeError,
};

#[test]
fn test_convert_name() {
    let path = r"/system/user/file";

    let (bytes, len) = convert_name(path).unwrap();
    assert_eq!(len, 4);
    let mut ans: Vec<u8> = vec![0; 256];
    ans[0] = 102;
    ans[1] = 105;
    ans[2] = 108;
    ans[3] = 101;
    for (a, b) in ans.iter().zip(bytes.iter()) {
        assert_eq!(a, b);
    }
}

#[test]
fn test_convert_name_relative_verbatim() {
    let (bytes, len) = convert_name("dir/inner.txt").unwrap();
    assert_eq!(len, 13);
    assert_eq!(&bytes[..13], "dir/inner.txt".as_bytes());
    assert!(bytes[13..].iter().all(|b| *b == 0));
    assert_eq!(bytes.len(), 256);
}

#[test]
fn test_convert_name_trailing_slashes() {
    let (bytes, len) = convert_name("/var/tmp/data/").unwrap();
    assert_eq!(len, 4);
    assert_eq!(&bytes[..4], "data".as_bytes());
}

#[test]
fn test_batch_header_round_trip() {
    for count in [0i16, 1, 5, 255, 256, 32767, -1, -2, -32768] {
        let bytes = encode_batch_header(count);
        assert_eq!(bytes.len(), 2);
        assert_eq!(decode_batch_header(&bytes), count);
    }
    assert_eq!(encode_batch_header(1), vec![1, 0]);
    assert_eq!(encode_batch_header(258), vec![2, 1]);
    assert_eq!(encode_batch_header(-1), vec![0xff, 0xff]);
}

#[test]
fn test_file_header_round_trip() {
    for (name, size) in [
        ("a.txt", 0u64),
        ("some-longer_name.bin", 1),
        ("x", u64::MAX),
        ("héllo wörld.txt", 123456789),
    ] {
        let header = encode_file_header(name, size).unwrap();
        assert_eq!(header.len(), 265);
        assert_eq!(header[0] as usize, name.len());
        let (decoded_name, decoded_size) = decode_file_header(&header).unwrap();
        assert_eq!(decoded_name, name);
        assert_eq!(decoded_size, size);
    }
}

#[test]
fn test_file_header_sends_basename_of_absolute_path() {
    let header = encode_file_header("/system/user/file", 2048).unwrap();
    let (name, size) = decode_file_header(&header).unwrap();
    assert_eq!(name, "file");
    assert_eq!(size, 2048);
}

#[test]
fn test_file_header_layout() {
    let header = encode_file_header("ab", 0x0102030405060708).unwrap();
    assert_eq!(header[0], 2);
    assert_eq!(header[1], b'a');
    assert_eq!(header[2], b'b');
    assert!(header[3..257].iter().all(|b| *b == 0));
    assert_eq!(&header[257..], &[8, 7, 6, 5, 4, 3, 2, 1]);
}

#[test]
fn test_convert_name_too_long_fails_distinctly() {
    let long = "w".repeat(300);
    assert_eq!(convert_name(&long), Err(EncodeError::NameTooLong));
    assert_eq!(convert_name("w".repeat(256).as_str()), Err(EncodeError::NameTooLong));
    let (_, len) = convert_name("w".repeat(255).as_str()).unwrap();
    assert_eq!(len, 255);
}

#[test]
fn test_name_too_long_fails_distinctly() {
    let long = "x".repeat(300);
    assert_eq!(encode_file_header(&long, 1), Err(EncodeError::NameTooLong));
    let exact = "y".repeat(255);
    let header = encode_file_header(&exact, 1).unwrap();
    let (name, _) = decode_file_header(&header).unwrap();
    assert_eq!(name, exact);
    let over = "z".repeat(256);
    assert_eq!(encode_file_header(&over, 1), Err(EncodeError::NameTooLong));
}

#[test]
fn test_long_absolute_path_with_short_basename_is_fine() {
    let long_dir = "d".repeat(300);
    let path = format!("/{}/leaf", long_dir);
    let header = encode_file_header(&path, 7).unwrap();
    let (name, size) = decode_file_header(&header).unwrap();
    assert_eq!(name, "leaf");
    assert_eq!(size, 7);
}

#[test]
fn test_invalid_name_bytes_decode_to_none() {
    let mut header = vec![0u8; 265];
    header[0] = 2;
    header[1] = 0xff;
    header[2] = 0xfe;
    assert_eq!(decode_file_header(&header), None);
}
