use decimation_benchmark::stride::BufferDimensions;

#[test]
fn aligned_row_needs_no_padding() {
    // 512 × 4 = 2048 is already a multiple of 256, so no padding is added.
    let dims = BufferDimensions::new(512, 512, 4, 256);
    assert_eq!(dims.width, 512);
    assert_eq!(dims.height, 512);
    assert_eq!(dims.unpadded_bytes_per_row, 2048);
    assert_eq!(dims.padded_bytes_per_row, 2048);
}

#[test]
fn unaligned_row_is_padded_up() {
    // 300 × 4 = 1200; 1200 mod 256 = 176, so 80 bytes of padding are added
    // and the row stride becomes 1280, the next multiple of 256.
    let dims = BufferDimensions::new(300, 10, 4, 256);
    assert_eq!(dims.unpadded_bytes_per_row, 1200);
    assert_eq!(dims.padded_bytes_per_row, 1280);
    assert_eq!(dims.padded_bytes_per_row % 256, 0);
    assert!(dims.padded_bytes_per_row >= dims.unpadded_bytes_per_row);
}

#[test]
fn padded_row_is_aligned_for_any_positive_alignment() {
    for width in 1..64usize {
        for &alignment in &[1usize, 2, 3, 7, 64, 100, 256] {
            let dims = BufferDimensions::new(width, 5, 4, alignment);
            assert_eq!(dims.unpadded_bytes_per_row, width * 4);
            assert_eq!(dims.padded_bytes_per_row % alignment, 0);
            assert!(dims.padded_bytes_per_row >= width * 4);
            assert!(dims.padded_bytes_per_row < width * 4 + alignment);
        }
    }
}

#[test]
fn alignment_of_one_never_pads() {
    let dims = BufferDimensions::new(123, 7, 4, 1);
    assert_eq!(dims.padded_bytes_per_row, dims.unpadded_bytes_per_row);
}

#[test]
fn staging_buffer_holds_one_padded_row_per_image_row() {
    let dims = BufferDimensions::new(300, 10, 4, 256);
    assert_eq!(dims.staging_buffer_size(), 1280 * 10);
}
