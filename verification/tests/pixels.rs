use digit_mlp::image::{get_pixels, IMAGE_BYTES, INPUT_SIZE, RGBA};
use digit_mlp::InferenceError;

#[test]
fn all_background_image_gives_full_features() {
    let data = vec![0u8; IMAGE_BYTES];
    let v = get_pixels(&data).unwrap();
    assert_eq!(v.len(), INPUT_SIZE);
    assert!(v.iter().all(|&f| f == 1));
}

#[test]
fn all_ink_image_gives_zero_features() {
    let data = vec![255u8; IMAGE_BYTES];
    let v = get_pixels(&data).unwrap();
    assert_eq!(v.len(), INPUT_SIZE);
    assert!(v.iter().all(|&f| f == 0));
}

#[test]
fn short_image_rejected() {
    let data = vec![0u8; IMAGE_BYTES - 1];
    assert_eq!(get_pixels(&data), Err(InferenceError::ImageLength));
}

#[test]
fn long_image_rejected() {
    let data = vec![0u8; IMAGE_BYTES + 1];
    assert_eq!(get_pixels(&data), Err(InferenceError::ImageLength));
}

#[test]
fn empty_image_rejected() {
    let data: Vec<u8> = Vec::new();
    assert_eq!(get_pixels(&data), Err(InferenceError::ImageLength));
}

#[test]
fn threshold_flip_changes_exactly_one_feature() {
    let p: usize = 10;
    let mut below = vec![0u8; IMAGE_BYTES];
    below[p * RGBA] = 126;
    let mut at = below.clone();
    at[p * RGBA] = 127;
    let f_below = get_pixels(&below).unwrap();
    let f_at = get_pixels(&at).unwrap();
    assert_eq!(f_below[p], 1);
    assert_eq!(f_at[p], 0);
    for i in 0..INPUT_SIZE {
        if i != p {
            assert_eq!(f_below[i], f_at[i]);
        }
    }
}

#[test]
fn only_first_channel_is_read() {
    let mut data = vec![0u8; IMAGE_BYTES];
    data[5 * RGBA + 1] = 255;
    data[5 * RGBA + 2] = 255;
    data[5 * RGBA + 3] = 255;
    let v = get_pixels(&data).unwrap();
    assert_eq!(v[5], 1);
}
