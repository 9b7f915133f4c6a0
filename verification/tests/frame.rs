use argon2_bridge::frame::{big_endian_bytes, frame_text};
use argon2_bridge::pack_result;

fn read_frame(frame: &[u8]) -> String {
    let mut prefix = [0u8; 4];
    prefix.copy_from_slice(&frame[0..4]);
    let len = u32::from_be_bytes(prefix) as usize;
    assert_eq!(frame.len(), 4 + len);
    String::from_utf8(frame[4..4 + len].to_vec()).unwrap()
}

#[test]
fn pack_result_of_empty_text_is_a_zero_length() {
    assert_eq!(pack_result(""), vec![0, 0, 0, 0]);
}

#[test]
fn pack_result_prefixes_the_length() {
    assert_eq!(pack_result("abc"), vec![0, 0, 0, 3, b'a', b'b', b'c']);
}

#[test]
fn pack_result_counts_bytes_not_characters() {
    assert_eq!(pack_result("é"), vec![0, 0, 0, 2, 0xC3, 0xA9]);
    assert_eq!(pack_result("€"), vec![0, 0, 0, 3, 0xE2, 0x82, 0xAC]);
}

#[test]
fn pack_result_writes_the_length_most_significant_byte_first() {
    let text = "x".repeat(300);
    let packed = pack_result(&text);
    assert_eq!(&packed[0..4], &[0, 0, 1, 44]);
    assert_eq!(packed.len(), 304);
    assert!(packed[4..].iter().all(|b| *b == b'x'));

    let text = "y".repeat(65536 + 258);
    let packed = pack_result(&text);
    assert_eq!(&packed[0..4], &[0, 1, 1, 2]);
    assert_eq!(packed.len(), 4 + 65536 + 258);
}

#[test]
fn big_endian_bytes_of_some_numbers() {
    assert_eq!(big_endian_bytes(0), vec![0, 0, 0, 0]);
    assert_eq!(big_endian_bytes(1), vec![0, 0, 0, 1]);
    assert_eq!(big_endian_bytes(0x0102_0304), vec![1, 2, 3, 4]);
    assert_eq!(big_endian_bytes(0xDEAD_BEEF), vec![0xDE, 0xAD, 0xBE, 0xEF]);
    assert_eq!(big_endian_bytes(u32::MAX), vec![255, 255, 255, 255]);
}

#[test]
fn big_endian_bytes_agree_with_std() {
    for n in [0u32, 7, 255, 256, 65535, 65536, 16_777_215, 16_777_216, 2_147_483_648] {
        assert_eq!(big_endian_bytes(n), n.to_be_bytes().to_vec());
    }
}

#[test]
fn frame_text_frames_what_fits() {
    assert_eq!(frame_text(""), Some(vec![0, 0, 0, 0]));
    assert_eq!(frame_text("abc"), Some(vec![0, 0, 0, 3, b'a', b'b', b'c']));
    let text = "z".repeat(70000);
    assert_eq!(frame_text(&text), Some(pack_result(&text)));
}

#[test]
fn framed_text_reads_back() {
    for text in ["", "a", "{\"result\":true,\"error\":null}", "päss wörd ✓", "line\nbreak"] {
        assert_eq!(read_frame(&pack_result(text)), text);
    }
}
