use sunshift::icon::{
    color_for, distance_squared_of, intensity_at, pixel_at, shade_channel, CENTER, MARGIN, RADIUS,
    SIZE, THREE_TENTHS,
};
use sunshift::tray::generate_icon;

/// The gradient as it is written with single-precision floats.
fn float_pixel(temperature: u16, x: u32, y: u32) -> [u8; 4] {
    let size = 32;
    let (r, g, b) = match temperature {
        0..=3000 => (255, 100, 50),
        3001..=3500 => (255, 140, 70),
        3501..=4000 => (255, 180, 90),
        4001..=4500 => (255, 210, 120),
        4501..=5000 => (255, 230, 150),
        5001..=5500 => (255, 250, 180),
        5501..=6000 => (240, 240, 200),
        6001..=6500 => (200, 220, 255),
        _ => (150, 200, 255),
    };
    let center = size as f32 / 2.0;
    let radius = (size as f32 / 2.0) - 2.0;
    let dx = x as f32 - center;
    let dy = y as f32 - center;
    let distance = (dx * dx + dy * dy).sqrt();
    if distance <= radius {
        let intensity = 1.0 - (distance / radius) * 0.3;
        [
            (r as f32 * intensity) as u8,
            (g as f32 * intensity) as u8,
            (b as f32 * intensity) as u8,
            255,
        ]
    } else {
        [0, 0, 0, 0]
    }
}

const BAND_SAMPLES: [u16; 20] = [
    0, 1000, 3000, 3001, 3500, 3501, 4000, 4001, 4500, 4501, 5000, 5001, 5500, 5501, 6000, 6001,
    6500, 6501, 10000, 65535,
];

#[test]
fn geometry_constants() {
    assert_eq!(SIZE, 32);
    assert_eq!(MARGIN, 2);
    assert_eq!(CENTER, SIZE / 2);
    assert_eq!(RADIUS, SIZE / 2 - MARGIN);
    assert_eq!(THREE_TENTHS as f64 / 536870912.0, 0.3f32 as f64);
}

#[test]
fn band_boundaries() {
    assert_eq!(color_for(3000), (255, 100, 50));
    assert_eq!(color_for(3001), (255, 140, 70));
    assert_eq!(color_for(3500), (255, 140, 70));
    assert_eq!(color_for(3501), (255, 180, 90));
    assert_eq!(color_for(4000), (255, 180, 90));
    assert_eq!(color_for(4001), (255, 210, 120));
    assert_eq!(color_for(4500), (255, 210, 120));
    assert_eq!(color_for(4501), (255, 230, 150));
    assert_eq!(color_for(5000), (255, 230, 150));
    assert_eq!(color_for(5001), (255, 250, 180));
    assert_eq!(color_for(5500), (255, 250, 180));
    assert_eq!(color_for(5501), (240, 240, 200));
    assert_eq!(color_for(6000), (240, 240, 200));
    assert_eq!(color_for(6001), (200, 220, 255));
    assert_eq!(color_for(6500), (200, 220, 255));
    assert_eq!(color_for(6501), (150, 200, 255));
}

#[test]
fn band_extremes() {
    assert_eq!(color_for(0), (255, 100, 50));
    assert_eq!(color_for(65535), (150, 200, 255));
}

#[test]
fn squared_distances() {
    assert_eq!(distance_squared_of(16, 16), 0);
    assert_eq!(distance_squared_of(0, 0), 512);
    assert_eq!(distance_squared_of(31, 31), 450);
    assert_eq!(distance_squared_of(2, 16), 196);
    assert_eq!(distance_squared_of(19, 12), 25);
}

#[test]
fn corner_is_transparent_and_centre_is_opaque() {
    assert_eq!(pixel_at(3000, 0, 0).3, 0);
    assert_eq!(pixel_at(3000, 0, 0), (0, 0, 0, 0));
    assert_eq!(pixel_at(3000, 16, 16).3, 255);
    assert_eq!(pixel_at(3000, 16, 16), (255, 100, 50, 255));
}

#[test]
fn rim_of_the_disc() {
    // fourteen pixels from the centre is on the disc, one more is off
    assert_eq!(pixel_at(6500, 2, 16), (140, 154, 178, 255));
    assert_eq!(pixel_at(6500, 30, 16), (140, 154, 178, 255));
    assert_eq!(pixel_at(6500, 1, 16), (0, 0, 0, 0));
    assert_eq!(pixel_at(6500, 31, 16), (0, 0, 0, 0));
    // ten across and ten down is 200 squared, just off the disc
    assert_eq!(pixel_at(6500, 26, 26), (0, 0, 0, 0));
    assert_eq!(pixel_at(6500, 26, 25).3, 255);
}

#[test]
fn intensity_at_known_distances() {
    assert_eq!(intensity_at(0), 536870912);
    // at the rim: one less three tenths, as single precision has it
    assert_eq!(intensity_at(196) as f64 / 536870912.0, (1.0f32 - 0.3f32) as f64);
    assert_eq!(intensity_at(196), 375809632);
    // halfway: no rounding but in the difference
    assert_eq!(intensity_at(49) as f64 / 536870912.0, (1.0f32 - 0.5f32 * 0.3f32) as f64);
}

#[test]
fn shades_where_rounding_decides() {
    // twelve pixels out, the exact product is a whole number and single
    // precision falls just short of it
    assert_eq!(shade_channel(70, 144), 51);
    assert_eq!(shade_channel(140, 144), 103);
    assert_eq!(shade_channel(210, 144), 155);
    assert_eq!(shade_channel(140, 121), 106);
    // at the rim it lands on the whole number
    assert_eq!(shade_channel(100, 196), 70);
    assert_eq!(shade_channel(255, 196), 178);
    assert_eq!(shade_channel(0, 100), 0);
}

#[test]
fn pixels_match_the_float_gradient() {
    for &t in BAND_SAMPLES.iter() {
        for y in 0..32 {
            for x in 0..32 {
                let p = pixel_at(t, x, y);
                assert_eq!([p.0, p.1, p.2, p.3], float_pixel(t, x, y), "t={t} x={x} y={y}");
            }
        }
    }
}

#[test]
fn every_channel_value_matches_the_float_gradient() {
    for d2 in 0u32..=196 {
        let distance = (d2 as f32).sqrt();
        let intensity = 1.0f32 - (distance / 14.0f32) * 0.3f32;
        assert_eq!(intensity_at(d2) as f64 / 536870912.0, intensity as f64);
        for c in 0u16..=255 {
            let expected = (c as f32 * intensity) as u8;
            assert_eq!(shade_channel(c as u8, d2), expected, "c={c} d2={d2}");
        }
    }
}

#[test]
fn gradient_does_not_grow_with_distance() {
    for c in 0u16..=255 {
        let mut previous = 255u8;
        for d2 in 0u32..=196 {
            let shaded = shade_channel(c as u8, d2);
            assert!(shaded <= previous);
            assert!(shaded <= c as u8);
            previous = shaded;
        }
    }
    let mut previous = intensity_at(0);
    for d2 in 1u32..=196 {
        assert!(intensity_at(d2) <= previous);
        previous = intensity_at(d2);
    }
}

#[test]
fn gradient_falls_off_across_pixels() {
    let a = pixel_at(4200, 16, 16);
    let b = pixel_at(4200, 20, 19);
    let c = pixel_at(4200, 27, 10);
    assert!(a.0 >= b.0 && b.0 >= c.0);
    assert!(a.1 >= b.1 && b.1 >= c.1);
    assert!(a.2 >= b.2 && b.2 >= c.2);
    assert_eq!(a, (255, 210, 120, 255));
}

#[test]
fn rendering_twice_gives_the_same_bytes() {
    for &t in BAND_SAMPLES.iter() {
        assert_eq!(generate_icon(t), generate_icon(t));
    }
    assert_ne!(generate_icon(3000), generate_icon(3001));
    assert_eq!(generate_icon(3001), generate_icon(3500));
}

#[test]
fn png_decodes_to_the_pixels() {
    for &t in BAND_SAMPLES.iter() {
        let png = generate_icon(t).unwrap();
        assert_eq!(&png[..8], b"\x89PNG\r\n\x1a\n");
        let decoded = image::load_from_memory(&png).unwrap().to_rgba8();
        assert_eq!(decoded.dimensions(), (32, 32));
        for y in 0..32 {
            for x in 0..32 {
                let p = pixel_at(t, x, y);
                assert_eq!(decoded.get_pixel(x, y).0, [p.0, p.1, p.2, p.3]);
                assert_eq!(decoded.get_pixel(x, y).0, float_pixel(t, x, y));
            }
        }
    }
}
