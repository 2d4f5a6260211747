use ray_tracer::gpu::{image_to_ppm, to_ppm, HEIGHT, IMAGE_BUFFER_SIZE, WIDTH};

fn text(bytes: Vec<u8>) -> String {
    String::from_utf8(bytes).unwrap()
}

#[test]
fn buffer_size_is_four_bytes_per_pixel() {
    assert_eq!(WIDTH, 512);
    assert_eq!(HEIGHT, 512);
    assert_eq!(IMAGE_BUFFER_SIZE, 1048576);
}

#[test]
fn words_become_red_channel() {
    let out = to_ppm(&[1, 256, 0]);
    assert_eq!(text(out), "P3\n512 512\n255\n1 0 0\n256 0 0\n0 0 0\n");
}

#[test]
fn zero_bytes_give_black_pixels() {
    let out = image_to_ppm(&[0u8; 8]);
    assert_eq!(text(out), "P3\n512 512\n255\n0 0 0\n0 0 0\n");
}

#[test]
fn bytes_read_in_machine_order() {
    let word: u32 = 0x0102_0304;
    let mut bytes = word.to_ne_bytes().to_vec();
    bytes.extend_from_slice(&[0, 0, 0, 0]);
    let out = image_to_ppm(&bytes);
    assert_eq!(text(out), "P3\n512 512\n255\n16909060 0 0\n0 0 0\n");
}

#[test]
fn short_last_word_is_padded() {
    let out = image_to_ppm(&[0, 0, 0, 0, 0]);
    assert_eq!(text(out), "P3\n512 512\n255\n0 0 0\n0 0 0\n");
    let out = image_to_ppm(&[]);
    assert_eq!(text(out), "P3\n512 512\n255\n");
}
