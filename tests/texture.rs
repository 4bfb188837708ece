use reflax::{Texture, TextureError};

/// A 16 x 16 image, top-left origin: blue top left, green top right, black
/// bottom left, red bottom right.
fn quadrant_tga(bits_per_pixel: u8) -> Vec<u8> {
    let mut data = vec![0u8; 18];
    data[2] = 2;
    data[12] = 16;
    data[14] = 16;
    data[16] = bits_per_pixel;
    data[17] = if bits_per_pixel == 32 { 8 } else { 0 };
    for y in 0..16u32 {
        for x in 0..16u32 {
            let (r, g, b) = match (x < 8, y < 8) {
                (true, true) => (0u8, 0u8, 255u8),
                (false, true) => (0, 255, 0),
                (true, false) => (0, 0, 0),
                (false, false) => (255, 0, 0),
            };
            data.push(b);
            data.push(g);
            data.push(r);
            if bits_per_pixel == 32 {
                data.push(255);
            }
        }
    }
    data
}

fn validate_texture(texture: Texture) {
    assert_eq!(texture.width, 16);
    assert_eq!(texture.height, 16);
    assert_eq!(texture.color_buffer.len(), 16 * 16 * 3);

    /* blue pixels*/
    assert_eq!(texture.pixel_rgb(0, 0).unwrap(), [0, 0, 255]);
    assert_eq!(texture.pixel_rgb(7, 0).unwrap(), [0, 0, 255]);
    assert_eq!(texture.pixel_rgb(0, 7).unwrap(), [0, 0, 255]);
    assert_eq!(texture.pixel_rgb(7, 7).unwrap(), [0, 0, 255]);

    /* green pixels*/
    assert_eq!(texture.pixel_rgb(8, 0).unwrap(), [0, 255, 0]);
    assert_eq!(texture.pixel_rgb(15, 0).unwrap(), [0, 255, 0]);
    assert_eq!(texture.pixel_rgb(8, 7).unwrap(), [0, 255, 0]);
    assert_eq!(texture.pixel_rgb(15, 7).unwrap(), [0, 255, 0]);

    /* black pixels*/
    assert_eq!(texture.pixel_rgb(0, 8).unwrap(), [0, 0, 0]);
    assert_eq!(texture.pixel_rgb(7, 8).unwrap(), [0, 0, 0]);
    assert_eq!(texture.pixel_rgb(0, 15).unwrap(), [0, 0, 0]);
    assert_eq!(texture.pixel_rgb(7, 15).unwrap(), [0, 0, 0]);

    /* red pixels*/
    assert_eq!(texture.pixel_rgb(8, 8).unwrap(), [255, 0, 0]);
    assert_eq!(texture.pixel_rgb(15, 8).unwrap(), [255, 0, 0]);
    assert_eq!(texture.pixel_rgb(8, 15).unwrap(), [255, 0, 0]);
    assert_eq!(texture.pixel_rgb(15, 15).unwrap(), [255, 0, 0]);

    /* out of bounds */
    assert!(texture.pixel_rgb(16, 0).is_err());
    assert!(texture.pixel_rgb(0, 16).is_err());
    assert!(texture.pixel_rgb(16, 16).is_err());
}

#[test]
fn from_tga_24() {
    let texture = Texture::from_tga(&quadrant_tga(24)).unwrap();
    validate_texture(texture);
}

#[test]
fn from_tga_32() {
    let texture = Texture::from_tga(&quadrant_tga(32)).unwrap();
    validate_texture(texture);
}

#[test]
fn from_tga_premultiplies_alpha() {
    let mut data = vec![0u8; 18];
    data[2] = 2;
    data[12] = 1;
    data[14] = 1;
    data[16] = 32;
    data.extend_from_slice(&[200, 100, 50, 128]);
    let texture = Texture::from_tga(&data).unwrap();
    assert_eq!(texture.color_buffer, vec![25, 50, 100]);
}

#[test]
fn from_tga_skips_identification_and_color_map() {
    let mut data = vec![0u8; 18];
    data[0] = 3;
    data[2] = 2;
    data[5] = 2;
    data[7] = 16;
    data[12] = 1;
    data[14] = 1;
    data[16] = 24;
    data.extend_from_slice(&[9, 9, 9, 7, 7, 7, 7]);
    data.extend_from_slice(&[1, 2, 3]);
    let texture = Texture::from_tga(&data).unwrap();
    assert_eq!(texture.color_buffer, vec![3, 2, 1]);
}

#[test]
fn from_tga_errors() {
    let good = quadrant_tga(24);
    assert_eq!(Texture::from_tga(&good[..17]).unwrap_err(), TextureError::TruncatedHeader);
    let mut d = good.clone();
    d[1] = 1;
    assert_eq!(Texture::from_tga(&d).unwrap_err(), TextureError::ColorMapped);
    let mut d = good.clone();
    d[2] = 10;
    assert_eq!(Texture::from_tga(&d).unwrap_err(), TextureError::NotUncompressedRgb);
    let mut d = good.clone();
    d[10] = 1;
    assert_eq!(Texture::from_tga(&d).unwrap_err(), TextureError::NonZeroOffset);
    let mut d = good.clone();
    d[16] = 16;
    assert_eq!(Texture::from_tga(&d).unwrap_err(), TextureError::UnsupportedBitsPerPixel);
    let mut d = good.clone();
    d[17] = 0x20;
    assert_eq!(Texture::from_tga(&d).unwrap_err(), TextureError::UnsupportedOrigin);
    assert_eq!(Texture::from_tga(&good[..good.len() - 1]).unwrap_err(), TextureError::TruncatedPixels);
}

#[test]
fn to_bmp_writes_headers_and_bgr_pixels() {
    let texture = Texture { width: 2, height: 1, color_buffer: vec![1, 2, 3, 4, 5, 6] };
    let bytes = texture.to_bmp();
    assert_eq!(bytes.len(), 54 + 6);
    assert_eq!(&bytes[0..2], b"BM");
    assert_eq!(&bytes[2..6], &[60, 0, 0, 0]);
    assert_eq!(&bytes[10..14], &[54, 0, 0, 0]);
    assert_eq!(&bytes[14..18], &[40, 0, 0, 0]);
    assert_eq!(&bytes[18..22], &[2, 0, 0, 0]);
    assert_eq!(&bytes[22..26], &[1, 0, 0, 0]);
    assert_eq!(&bytes[26..28], &[1, 0]);
    assert_eq!(&bytes[28..30], &[24, 0]);
    assert!(bytes[30..54].iter().all(|&b| b == 0));
    assert_eq!(&bytes[54..], &[3, 2, 1, 6, 5, 4]);
}

#[test]
fn to_bmp_encodes_large_sizes_little_endian() {
    let texture = Texture { width: 300, height: 2, color_buffer: vec![0; 300 * 2 * 3] };
    let bytes = texture.to_bmp();
    assert_eq!(&bytes[2..6], &[0x3E, 0x07, 0, 0]);
    assert_eq!(&bytes[18..22], &[0x2C, 0x01, 0, 0]);
}

#[test]
fn load_and_save_by_extension() {
    let tga = quadrant_tga(24);
    let texture = Texture::load_from_bytes("tga", &tga).unwrap();
    assert_eq!(texture.width, 16);
    assert_eq!(Texture::load_from_bytes("bmp", &tga).unwrap_err(), TextureError::NotImplemented);
    assert_eq!(Texture::load_from_bytes("png", &tga).unwrap_err(), TextureError::UnsupportedFile);
    assert_eq!(Texture::load_from_bytes("TGA", &tga).unwrap_err(), TextureError::UnsupportedFile);
    assert_eq!(texture.save_to_bytes("bmp").unwrap(), texture.to_bmp());
    assert_eq!(texture.save_to_bytes("tga").unwrap_err(), TextureError::NotImplemented);
    assert_eq!(texture.save_to_bytes("jpg").unwrap_err(), TextureError::UnsupportedFile);
}
