use decimation_benchmark::pixels::strip_padding;
use decimation_benchmark::stride::BufferDimensions;

/// Builds a padded buffer whose row `i` carries the payload byte `i mod 256`
/// and whose padding bytes carry a marker that must never survive stripping.
fn synthetic_padded(dims: &BufferDimensions, marker: u8) -> Vec<u8> {
    let mut padded = Vec::new();
    for row in 0..dims.height {
        for _ in 0..dims.unpadded_bytes_per_row {
            padded.push((row % 256) as u8);
        }
        for _ in dims.unpadded_bytes_per_row..dims.padded_bytes_per_row {
            padded.push(marker);
        }
    }
    padded
}

#[test]
fn stripping_reproduces_the_source_rows() {
    let dims = BufferDimensions::new(300, 10, 4, 256);
    let padded = synthetic_padded(&dims, 0xAB);
    assert_eq!(padded.len(), dims.padded_bytes_per_row * dims.height);

    let tight = strip_padding(&padded, &dims);

    assert_eq!(tight.len(), dims.unpadded_bytes_per_row * dims.height);
    let mut expected = Vec::new();
    for row in 0..dims.height {
        for _ in 0..dims.unpadded_bytes_per_row {
            expected.push((row % 256) as u8);
        }
    }
    assert_eq!(tight, expected);
}

#[test]
fn stripping_drops_every_marker_byte() {
    let dims = BufferDimensions::new(3, 4, 4, 64);
    // 3 × 4 = 12 payload bytes per row, padded to 64.
    assert_eq!(dims.padded_bytes_per_row, 64);
    let padded = synthetic_padded(&dims, 0xEE);
    let tight = strip_padding(&padded, &dims);
    assert_eq!(tight.len(), 12 * 4);
    assert!(tight.iter().all(|&b| b != 0xEE));
}

#[test]
fn stripping_an_unpadded_buffer_is_the_identity() {
    let dims = BufferDimensions::new(16, 3, 4, 64);
    // 16 × 4 = 64 is already aligned: stride and payload coincide.
    assert_eq!(dims.padded_bytes_per_row, dims.unpadded_bytes_per_row);
    let source: Vec<u8> = (0..64 * 3).map(|i| (i % 251) as u8).collect();
    let tight = strip_padding(&source, &dims);
    assert_eq!(tight, source);
}

#[test]
fn stripping_an_empty_image_yields_nothing() {
    let dims = BufferDimensions::new(5, 0, 4, 256);
    let padded: Vec<u8> = Vec::new();
    let tight = strip_padding(&padded, &dims);
    assert!(tight.is_empty());
}
