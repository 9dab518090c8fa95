use rustcraft::shader::bytes_to_shader;

#[test]
fn bytes_to_shader_reads_little_endian_words() {
    assert_eq!(bytes_to_shader(&[0x03, 0x02, 0x23, 0x07]), vec![0x0723_0203]);
    assert_eq!(bytes_to_shader(&[1, 0, 0, 0, 0, 0, 0, 0x80]), vec![1, 0x8000_0000]);
}

#[test]
fn bytes_to_shader_ignores_trailing_bytes() {
    assert_eq!(bytes_to_shader(&[1, 2, 3, 4, 5, 6]), vec![0x0403_0201]);
    assert_eq!(bytes_to_shader(&[1, 2, 3]), Vec::<u32>::new());
    assert_eq!(bytes_to_shader(&[]), Vec::<u32>::new());
}

#[test]
fn bytes_to_shader_words_give_back_their_bytes() {
    let bytes: Vec<u8> = (0u8..32).map(|b| b.wrapping_mul(37)).collect();
    let words = bytes_to_shader(&bytes);
    let back: Vec<u8> = words.iter().flat_map(|w| w.to_le_bytes()).collect();
    assert_eq!(back, bytes);
}
