use periph_hal::codec::{convert_u32_to_u8_array, convert_u8_to_u32_array, extract_byte};

#[test]
fn encode_packs_bytes_little_endian() {
    let block: [u8; 16] = [0, 1, 2, 3, 4, 5, 6, 7, 8, 9, 10, 11, 12, 13, 14, 15];
    let words = convert_u8_to_u32_array(block);
    assert_eq!(words, [0x0302_0100, 0x0706_0504, 0x0b0a_0908, 0x0f0e_0d0c]);
}

#[test]
fn decode_unpacks_words_little_endian() {
    let words: [u32; 4] = [0x0302_0100, 0x0706_0504, 0x0b0a_0908, 0x0f0e_0d0c];
    let block = convert_u32_to_u8_array(words);
    assert_eq!(block, [0, 1, 2, 3, 4, 5, 6, 7, 8, 9, 10, 11, 12, 13, 14, 15]);
}

#[test]
fn codec_round_trip_is_identity() {
    let mut block = [0u8; 16];
    for (i, b) in block.iter_mut().enumerate() {
        *b = (201 * i + 3) as u8;
    }
    let words = convert_u8_to_u32_array(block);
    assert_eq!(convert_u32_to_u8_array(words), block);
}

#[test]
fn codec_round_trip_on_words_is_identity() {
    let words: [u32; 4] = [0xdead_beef, 0x0102_0304, 0xffff_0000, 0x8000_0001];
    let block = convert_u32_to_u8_array(words);
    assert_eq!(convert_u8_to_u32_array(block), words);
}

#[test]
fn extract_byte_picks_each_position() {
    let w: u32 = 0xa1b2_c3d4;
    assert_eq!(extract_byte(w, 0), 0xd4);
    assert_eq!(extract_byte(w, 1), 0xc3);
    assert_eq!(extract_byte(w, 2), 0xb2);
    assert_eq!(extract_byte(w, 3), 0xa1);
}
