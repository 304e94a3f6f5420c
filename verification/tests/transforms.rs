use rgba_filters::color::{
    get_alpha, get_avg, get_blue, get_green, get_inverted_blue, get_inverted_green,
    get_inverted_red, get_red, set_blue, set_green, set_red, Rgba,
};
use rgba_filters::{
    blue_grayscale, get_raw_image_data, grayscale, green_grayscale, invert, lix, neue, open_image,
    red_grayscale, redden, remove_blue, remove_green, remove_red, ryo, sepia, swap_alpha_blue,
    swap_alpha_green, swap_alpha_red, swap_blue_green, swap_red_blue, swap_red_green, ImageWasm,
};

fn image_of(pixel: [u8; 4]) -> ImageWasm {
    open_image(pixel.to_vec())
}

fn pixel_of(img: &ImageWasm) -> Vec<u8> {
    get_raw_image_data(img)
}

#[test]
fn channel_offsets() {
    assert_eq!(Rgba::RED, 0);
    assert_eq!(Rgba::GREEN, 1);
    assert_eq!(Rgba::BLUE, 2);
    assert_eq!(Rgba::ALPHA, 3);
}

#[test]
fn accessors_read_fixed_offsets() {
    let px = [200u8, 100, 50, 255];
    assert_eq!(get_red(&px), 200);
    assert_eq!(get_green(&px), 100);
    assert_eq!(get_blue(&px), 50);
    assert_eq!(get_alpha(&px), 255);
    assert_eq!(get_inverted_red(&px), 55);
    assert_eq!(get_inverted_green(&px), 155);
    assert_eq!(get_inverted_blue(&px), 205);
}

#[test]
fn avg_rounds_down() {
    let px = [10u8, 20, 31, 0];
    assert_eq!(get_avg(&px), 20);
    let max = [255u8, 255, 255, 255];
    assert_eq!(get_avg(&max), 255);
}

#[test]
fn setters_write_fixed_offsets() {
    let mut px = [0u8, 0, 0, 9];
    set_red(&mut px, 1);
    set_green(&mut px, 2);
    set_blue(&mut px, 3);
    assert_eq!(px, [1, 2, 3, 9]);
}

#[test]
fn invert_example() {
    let mut img = image_of([200, 100, 50, 255]);
    invert(&mut img);
    assert_eq!(pixel_of(&img), vec![55, 155, 205, 255]);
}

#[test]
fn remove_red_after_invert_example() {
    let mut img = image_of([200, 100, 50, 255]);
    invert(&mut img);
    remove_red(&mut img);
    assert_eq!(pixel_of(&img), vec![0, 155, 205, 255]);
}

#[test]
fn swap_red_blue_example() {
    let mut img = image_of([200, 100, 50, 255]);
    swap_red_blue(&mut img);
    assert_eq!(pixel_of(&img), vec![50, 100, 200, 255]);
}

#[test]
fn invert_twice_is_identity() {
    let original: Vec<u8> = vec![0, 1, 2, 3, 254, 255, 128, 9, 40, 41, 42, 43];
    let mut img = open_image(original.clone());
    invert(&mut img);
    invert(&mut img);
    assert_eq!(get_raw_image_data(&img), original);
}

#[test]
fn swap_red_blue_twice_is_identity() {
    let original: Vec<u8> = vec![200, 100, 50, 255, 1, 2, 3, 4];
    let mut img = open_image(original.clone());
    swap_red_blue(&mut img);
    swap_red_blue(&mut img);
    assert_eq!(get_raw_image_data(&img), original);
}

#[test]
fn alpha_untouched_outside_alpha_swap_family() {
    let original: Vec<u8> = vec![200, 100, 50, 77, 0, 255, 13, 201];
    let ops: Vec<fn(&mut ImageWasm)> = vec![
        grayscale,
        remove_red,
        remove_green,
        remove_blue,
        swap_red_blue,
        swap_red_green,
        swap_blue_green,
        sepia,
        invert,
        redden,
        neue,
        lix,
        ryo,
        red_grayscale,
        green_grayscale,
        blue_grayscale,
    ];
    for op in ops {
        let mut img = open_image(original.clone());
        op(&mut img);
        let out = get_raw_image_data(&img);
        assert_eq!(out[3], 77);
        assert_eq!(out[7], 201);
    }
}

#[test]
fn alpha_swaps_exchange_channels() {
    let mut img = image_of([10, 20, 30, 40]);
    swap_alpha_red(&mut img);
    assert_eq!(pixel_of(&img), vec![40, 20, 30, 10]);

    let mut img = image_of([10, 20, 30, 40]);
    swap_alpha_green(&mut img);
    assert_eq!(pixel_of(&img), vec![10, 40, 30, 20]);

    let mut img = image_of([10, 20, 30, 40]);
    swap_alpha_blue(&mut img);
    assert_eq!(pixel_of(&img), vec![10, 20, 40, 30]);
}

#[test]
fn grayscale_leaves_uniform_pixel_unchanged() {
    let mut img = image_of([7, 7, 7, 9]);
    grayscale(&mut img);
    assert_eq!(pixel_of(&img), vec![7, 7, 7, 9]);
}

#[test]
fn grayscale_averages_channels() {
    let mut img = image_of([10, 20, 31, 40]);
    grayscale(&mut img);
    assert_eq!(pixel_of(&img), vec![20, 20, 20, 40]);
}

#[test]
fn sepia_clamps_both_channels_at_max_luminance() {
    let mut img = image_of([255, 255, 255, 1]);
    sepia(&mut img);
    assert_eq!(pixel_of(&img), vec![255, 255, 255, 1]);
}

#[test]
fn sepia_exact_values() {
    // weight = (30*100 + 59*50 + 11*25) / 100 = 6225 / 100 = 62
    let mut img = image_of([100, 50, 25, 7]);
    sepia(&mut img);
    assert_eq!(pixel_of(&img), vec![162, 112, 25, 7]);
}

#[test]
fn sepia_clamps_red_before_green() {
    // weight = (30*200 + 59*200 + 11*200) / 100 = 200: red clamps, green not
    let mut img = image_of([200, 200, 200, 5]);
    sepia(&mut img);
    assert_eq!(pixel_of(&img), vec![255, 250, 200, 5]);
}

#[test]
fn remove_channels_zero_their_target() {
    let mut img = image_of([9, 8, 7, 6]);
    remove_green(&mut img);
    assert_eq!(pixel_of(&img), vec![9, 0, 7, 6]);
    remove_blue(&mut img);
    assert_eq!(pixel_of(&img), vec![9, 0, 0, 6]);
    remove_red(&mut img);
    assert_eq!(pixel_of(&img), vec![0, 0, 0, 6]);
}

#[test]
fn swaps_exchange_named_channels() {
    let mut img = image_of([1, 2, 3, 4]);
    swap_red_green(&mut img);
    assert_eq!(pixel_of(&img), vec![2, 1, 3, 4]);

    let mut img = image_of([1, 2, 3, 4]);
    swap_blue_green(&mut img);
    assert_eq!(pixel_of(&img), vec![1, 3, 2, 4]);
}

#[test]
fn single_channel_inversions() {
    let mut img = image_of([200, 100, 50, 255]);
    redden(&mut img);
    assert_eq!(pixel_of(&img), vec![55, 100, 50, 255]);

    let mut img = image_of([200, 100, 50, 255]);
    neue(&mut img);
    assert_eq!(pixel_of(&img), vec![200, 100, 205, 255]);

    let mut img = image_of([200, 100, 50, 255]);
    lix(&mut img);
    assert_eq!(pixel_of(&img), vec![55, 155, 50, 255]);

    let mut img = image_of([200, 100, 50, 255]);
    ryo(&mut img);
    assert_eq!(pixel_of(&img), vec![55, 100, 205, 255]);
}

#[test]
fn channel_grayscales_copy_one_source_channel() {
    let mut img = image_of([10, 20, 30, 40]);
    red_grayscale(&mut img);
    assert_eq!(pixel_of(&img), vec![10, 10, 10, 40]);

    let mut img = image_of([10, 20, 30, 40]);
    green_grayscale(&mut img);
    assert_eq!(pixel_of(&img), vec![20, 20, 20, 40]);

    let mut img = image_of([10, 20, 30, 40]);
    blue_grayscale(&mut img);
    assert_eq!(pixel_of(&img), vec![30, 30, 30, 40]);
}

#[test]
fn open_image_round_trip() {
    let raw: Vec<u8> = vec![1, 2, 3, 4, 5, 6, 7, 8];
    let img = open_image(raw.clone());
    assert_eq!(get_raw_image_data(&img), raw);
}
