use shazam_tray::icon::decode_icon;

fn encode(width: u32, height: u32, color: png::ColorType, data: &[u8]) -> Vec<u8> {
    let mut out = Vec::new();
    {
        let mut enc = png::Encoder::new(&mut out, width, height);
        enc.set_color(color);
        enc.set_depth(png::BitDepth::Eight);
        let mut w = enc.write_header().unwrap();
        w.write_image_data(data).unwrap();
    }
    out
}

#[test]
fn rgba_png_decodes() {
    let pixels = [1u8, 2, 3, 255, 4, 5, 6, 0];
    let img = decode_icon(&encode(2, 1, png::ColorType::Rgba, &pixels)).expect("rgba icon");
    assert_eq!(img.width, 2);
    assert_eq!(img.height, 1);
    assert_eq!(img.pixels, pixels.to_vec());
}

#[test]
fn non_rgba_or_broken_png_is_refused() {
    assert!(decode_icon(&encode(2, 1, png::ColorType::Rgb, &[1, 2, 3, 4, 5, 6])).is_none());
    assert!(decode_icon(b"not a png").is_none());
    assert!(decode_icon(&[]).is_none());
}
