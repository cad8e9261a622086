use chainner_ext::palette::{pack_color, unique_colors, unpack_color, ExtractionError};

#[test]
fn pack_and_unpack_colors() {
    let bits = [1u32, 2, 3, 0xFFFF_FFFF];
    let key = pack_color(&bits, 0, 4);
    assert_eq!(key, 1 | (2 << 32) | (3 << 64) | (0xFFFF_FFFFu128 << 96));
    assert_eq!(unpack_color(key, 4), bits.to_vec());
    assert_eq!(pack_color(&bits, 1, 2), 2 | (3 << 32));
    assert_eq!(unpack_color(2 | (3 << 32), 2), vec![2, 3]);
}

#[test]
fn unique_colors_counts_distinct_pixels() {
    // Three pixels of two channels; the first and the last are the same color.
    let bits = [1u32, 2, 3, 4, 1, 2];
    let mut keys = unique_colors(&bits, 2, 10).unwrap();
    keys.sort();
    assert_eq!(keys, vec![1 | (2 << 32), 3 | (4 << 32)]);
    assert_eq!(unique_colors(&bits, 2, 2).map(|v| v.len()), Ok(2));
}

#[test]
fn unique_colors_too_many() {
    let bits = [1u32, 2, 3, 4, 1, 2];
    assert_eq!(
        unique_colors(&bits, 1, 3),
        Err(ExtractionError::TooManyColors { max_colors: 3, actual_colors: 4 })
    );
}

#[test]
fn unique_colors_unsupported_channels() {
    assert_eq!(unique_colors(&[0u32; 10], 5, 10), Err(ExtractionError::UnsupportedChannels { channels: 5 }));
    assert_eq!(unique_colors(&[], 0, 10), Err(ExtractionError::UnsupportedChannels { channels: 0 }));
}

#[test]
fn unique_colors_of_nothing() {
    assert_eq!(unique_colors(&[], 3, 0), Ok(vec![]));
}
