use vec3_ppm::color::Rgb;
use vec3_ppm::ppm::decimal_string;
use vec3_ppm::ppm::pixel_coords;
use vec3_ppm::ppm::pixel_line;
use vec3_ppm::ppm::ppm_lines;

#[test]
fn decimal_rendering_matches_std() {
    let cases: Vec<i32> = vec![0, 7, 10, 253, 255, -1, -12, 1000000, i32::MAX, i32::MIN];
    for n in cases {
        assert_eq!(decimal_string(n), format!("{}", n));
    }
}

#[test]
fn pixel_line_is_three_channels_space_separated() {
    assert_eq!(pixel_line(&Rgb::new(0, 253, 51)), "0 253 51");
    assert_eq!(pixel_line(&Rgb::new(-1, 0, 255)), "-1 0 255");
}

#[test]
fn header_and_line_structure() {
    let pixels = vec![
        Rgb::new(0, 0, 0),
        Rgb::new(1, 2, 3),
        Rgb::new(255, 255, 255),
        Rgb::new(-4, 5, -6),
    ];
    let lines = ppm_lines(2, 2, &pixels);
    assert_eq!(lines.len(), 7);
    assert_eq!(lines[0], "P3");
    assert_eq!(lines[1], "2 2");
    assert_eq!(lines[2], "255");
    assert_eq!(lines[3], "0 0 0");
    assert_eq!(lines[4], "1 2 3");
    assert_eq!(lines[5], "255 255 255");
    assert_eq!(lines[6], "-4 5 -6");
}

#[test]
fn coords_run_bottom_row_first_columns_left_to_right() {
    let coords = pixel_coords(3, 2);
    assert_eq!(coords, vec![(0, 1), (1, 1), (2, 1), (0, 0), (1, 0), (2, 0)]);
}

#[test]
fn single_pixel_grid() {
    let coords = pixel_coords(1, 1);
    assert_eq!(coords, vec![(0, 0)]);
    let lines = ppm_lines(1, 1, &vec![Rgb::new(9, 9, 9)]);
    assert_eq!(lines.len(), 4);
    assert_eq!(lines[1], "1 1");
}

#[test]
fn gradient_image_has_expected_lines() {
    // The driver's grid: 200 columns by 100 rows, sampled bottom row
    // first; each channel is the normalized coordinate scaled by 255.99
    // and rounded (blue fixed at 0.2).
    let nx: u32 = 200;
    let ny: u32 = 100;
    let coords = pixel_coords(nx, ny);
    let mut pixels: Vec<Rgb> = Vec::new();
    for (col, row) in &coords {
        let ir = (255.99_f32 * (*col as f32 / nx as f32)).round() as i32;
        let ig = (255.99_f32 * (*row as f32 / ny as f32)).round() as i32;
        let ib = (255.99_f32 * 0.2_f32).round() as i32;
        pixels.push(Rgb::new(ir, ig, ib));
    }
    let lines = ppm_lines(nx, ny, &pixels);
    assert_eq!(lines.len(), 20003);
    assert_eq!(lines[0], "P3");
    assert_eq!(lines[1], "200 100");
    assert_eq!(lines[2], "255");
    // The first pixel line comes from column 0 of the bottom row, row 99.
    let first_g = (255.99_f32 * (99.0_f32 / 100.0_f32)).round() as i32;
    assert_eq!(lines[3], format!("0 {} 51", first_g));
    assert_eq!(lines[3], "0 253 51");
    // The last pixel line comes from the top row, rightmost column.
    let last_r = (255.99_f32 * (199.0_f32 / 200.0_f32)).round() as i32;
    assert_eq!(lines[20002], format!("{} 0 51", last_r));
}
