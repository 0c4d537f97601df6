use nih_plug_dioxus::readback::{bgra_to_softbuffer, padded_bytes_per_row, unpad_rows};

#[test]
fn rows_are_padded_to_the_alignment() {
    assert_eq!(padded_bytes_per_row(10, 256), 256);
    assert_eq!(padded_bytes_per_row(64, 256), 256);
    assert_eq!(padded_bytes_per_row(65, 256), 512);
    assert_eq!(padded_bytes_per_row(0, 256), 0);
    assert_eq!(padded_bytes_per_row(3, 8), 16);
}

#[test]
fn padding_is_stripped_per_row() {
    let data: Vec<u8> = (0..20).collect();
    assert_eq!(unpad_rows(&data, 3, 4, 8), vec![0, 1, 2, 3, 8, 9, 10, 11, 16, 17, 18, 19]);
    assert_eq!(unpad_rows(&data, 0, 4, 8), Vec::<u8>::new());
}

#[test]
fn unpadded_data_is_returned_whole() {
    let data: Vec<u8> = vec![9, 8, 7, 6, 5];
    assert_eq!(unpad_rows(&data, 1, 4, 4), data);
}

#[test]
fn bgra_bytes_become_argb_words() {
    let bgra = [0x10, 0x20, 0x30, 0x40, 0xFF, 0x00, 0x80, 0x7F, 0xAA];
    assert_eq!(bgra_to_softbuffer(&bgra, 2, 1), vec![0x4030_2010, 0x7F80_00FF]);
    assert_eq!(bgra_to_softbuffer(&[1, 2, 3], 1, 1), Vec::<u32>::new());
}
