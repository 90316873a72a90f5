use pseudo3d::bitmap::Bitmap;
use pseudo3d::bitmap::BitmapError;
use pseudo3d::bitmap::DecodedFrame;
use pseudo3d::colour::BGRA8;
use pseudo3d::colour::RGB8;
use pseudo3d::fixed::int_sqrt;
use pseudo3d::fixed::Fixed;
use pseudo3d::fixed_vec::FixedVec;
use pseudo3d::font::AlignHeight;
use pseudo3d::font::AlignWidth;
use pseudo3d::font::CharMetadata;
use pseudo3d::font::Font;
use pseudo3d::font::RunLength;
use pseudo3d::input::Event;
use pseudo3d::input::Input;
use pseudo3d::input::KeyCode;
use pseudo3d::input::KeyboardEvent;
use pseudo3d::input::Mouse;
use pseudo3d::input::MouseButton;
use pseudo3d::input::PointerEvent;
use pseudo3d::maths::mat::Mat2f;
use pseudo3d::maths::mat::Mat3f;
use pseudo3d::maths::vec::Vec2f;
use pseudo3d::maths::vec::Vec3f;
use pseudo3d::renderer::framebuffer::Framebuffer;
use pseudo3d::renderer::portal::PortalNode;
use pseudo3d::renderer::portal::PortalTree;
use pseudo3d::renderer::state::RendererState;
use pseudo3d::renderer::text::TextRenderer;
use pseudo3d::textures::downscale_3x3_box_filter;
use pseudo3d::textures::sample_clamp;
use pseudo3d::textures::sample_wrap;
use pseudo3d::textures::MipLevel;
use pseudo3d::textures::Texture;
use pseudo3d::textures::TextureError;
use pseudo3d::window::WindowAttributes;
use pseudo3d::window::WindowPosition;
use pseudo3d::window::WindowSize;

const PNG_RGBA: [u8; 79] = [137, 80, 78, 71, 13, 10, 26, 10, 0, 0, 0, 13, 73, 72, 68, 82, 0, 0, 0, 2, 0, 0, 0, 2, 8, 6, 0, 0, 0, 114, 182, 13, 36, 0, 0, 0, 22, 73, 68, 65, 84, 120, 156, 99, 248, 207, 192, 240, 31, 8, 27, 24, 64, 52, 151, 136, 156, 6, 0, 54, 169, 4, 225, 102, 7, 5, 73, 0, 0, 0, 0, 73, 69, 78, 68, 174, 66, 96, 130];
const PNG_RGB: [u8; 72] = [137, 80, 78, 71, 13, 10, 26, 10, 0, 0, 0, 13, 73, 72, 68, 82, 0, 0, 0, 2, 0, 0, 0, 1, 8, 2, 0, 0, 0, 123, 64, 232, 221, 0, 0, 0, 15, 73, 68, 65, 84, 120, 156, 99, 96, 100, 98, 102, 97, 101, 3, 0, 0, 63, 0, 22, 33, 186, 212, 84, 0, 0, 0, 0, 73, 69, 78, 68, 174, 66, 96, 130];

fn fx(v: f64) -> Fixed {
    Fixed::from_raw((v * 16777216.0).round() as i64)
}

fn as_f64(f: Fixed) -> f64 {
    f.raw as f64 / 16777216.0
}

fn vec(x: f64, y: f64) -> Vec2f {
    Vec2f::new(fx(x), fx(y))
}

#[test]
fn fixed_arithmetic_is_exact_on_small_numbers() {
    assert_eq!(Fixed::from_int(3).plus(Fixed::from_int(4)), Fixed::from_int(7));
    assert_eq!(Fixed::from_int(3).minus(Fixed::from_int(4)), Fixed::from_int(-1));
    assert_eq!(fx(1.5).times(fx(2.5)), fx(3.75));
    assert_eq!(Fixed::from_int(7).over(Fixed::from_int(2)), fx(3.5));
    assert_eq!(Fixed::from_ratio(1, 4), fx(0.25));
    assert_eq!(Fixed::from_int(-5).abs(), Fixed::from_int(5));
    assert_eq!(Fixed::from_int(5).neg(), Fixed::from_int(-5));
    assert_eq!(Fixed::from_int(5).half(), fx(2.5));
    assert_eq!(Fixed::from_int(9).sqrt(), Fixed::from_int(3));
    assert_eq!(Fixed::from_int(-9).sqrt(), Fixed::zero());
    assert_eq!(Fixed::one().raw, 1 << 24);
}

#[test]
fn fixed_rounds_towards_negative_infinity() {
    // One raw unit times a half is half a raw unit: down to zero, or down
    // to minus one.
    assert_eq!(Fixed::from_raw(1).times(fx(0.5)), Fixed::from_raw(0));
    assert_eq!(Fixed::from_raw(-1).times(fx(0.5)), Fixed::from_raw(-1));
    assert_eq!(Fixed::from_raw(1).over(Fixed::from_int(2)), Fixed::from_raw(0));
    assert_eq!(Fixed::from_raw(-1).over(Fixed::from_int(2)), Fixed::from_raw(-1));
    assert_eq!(Fixed::from_raw(1).over(Fixed::from_int(-2)), Fixed::from_raw(-1));
    assert_eq!(fx(-0.5).floor(), -1);
    assert_eq!(fx(2.75).floor(), 2);
}

#[test]
fn fixed_saturates() {
    let most = Fixed::from_raw(i64::MAX);
    let least = Fixed::from_raw(i64::MIN);
    assert_eq!(most.plus(Fixed::one()), most);
    assert_eq!(least.minus(Fixed::one()), least);
    assert_eq!(most.times(Fixed::from_int(2)), most);
    assert_eq!(most.times(Fixed::from_int(-2)), least);
    assert_eq!(least.neg(), most);
    assert_eq!(Fixed::one().over(Fixed::zero()), most);
    assert_eq!(Fixed::one().neg().over(Fixed::zero()), least);
    assert_eq!(Fixed::zero().over(Fixed::zero()), Fixed::zero());
}

#[test]
fn fixed_to_index_is_held_to_the_limit() {
    assert_eq!(fx(-3.5).to_index(100), 0);
    assert_eq!(fx(3.99).to_index(100), 3);
    assert_eq!(fx(100.5).to_index(100), 100);
    assert_eq!(fx(1000.0).to_index(100), 100);
    assert_eq!(Fixed::from_index(640), Fixed::from_int(640));
}

#[test]
fn int_sqrt_is_the_root_rounded_down() {
    assert_eq!(int_sqrt(0), 0);
    assert_eq!(int_sqrt(1), 1);
    assert_eq!(int_sqrt(15), 3);
    assert_eq!(int_sqrt(16), 4);
    assert_eq!(int_sqrt(u128::MAX), u64::MAX);
}

#[test]
fn sine_cosine_and_tangent_are_near_the_true_values() {
    for i in -40..=40 {
        let angle = i as f64 * 0.25;
        let a = fx(angle);
        assert!((as_f64(a.sin()) - angle.sin()).abs() < 0.00001, "sin {}", angle);
        assert!((as_f64(a.cos()) - angle.cos()).abs() < 0.00001, "cos {}", angle);
    }
    assert!((as_f64(fx(0.5).tan()) - 0.5f64.tan()).abs() < 0.00001);
    assert_eq!(Fixed::zero().sin(), Fixed::zero());
    assert!((as_f64(Fixed::zero().cos()) - 1.0).abs() < 0.000001);
    assert!(Fixed::zero().cos().raw <= Fixed::one().raw);
    assert!((as_f64(Fixed::from_int(180).to_radians()) - std::f64::consts::PI).abs() < 0.00001);
}

#[test]
fn vectors_add_scale_and_turn() {
    assert_eq!(vec(1.0, 2.0).plus(vec(3.0, 4.0)), vec(4.0, 6.0));
    assert_eq!(vec(1.0, 2.0).minus(vec(3.0, 4.0)), vec(-2.0, -2.0));
    assert_eq!(vec(1.0, 2.0).times(vec(3.0, 4.0)), vec(3.0, 8.0));
    assert_eq!(vec(1.0, 2.0).scaled(fx(2.0)), vec(2.0, 4.0));
    assert_eq!(vec(1.0, 2.0).dot(vec(3.0, 4.0)), fx(11.0));
    assert_eq!(vec(1.0, 2.0).cross(vec(3.0, 4.0)), fx(-2.0));
    assert_eq!(vec(1.0, 2.0).perpendicular(), vec(-2.0, 1.0));
    // A quarter turn: sine one, cosine zero.
    assert_eq!(vec(1.0, 2.0).rotate(fx(1.0), fx(0.0)), vec(-2.0, 1.0));
    assert_eq!(vec(3.0, 4.0).magnitude(), fx(5.0));
    assert_eq!(vec(3.0, 4.0).magnitude_sq(), fx(25.0));
    let unit = vec(3.0, 4.0).normalise();
    assert!((as_f64(unit.x) - 0.6).abs() < 0.000001 && (as_f64(unit.y) - 0.8).abs() < 0.000001);
    assert_eq!(Vec2f::zero().normalise(), Vec2f::zero());
    assert_eq!(vec(0.0, 0.0).lerp(vec(10.0, 20.0), fx(0.25)), vec(2.5, 5.0));
}

#[test]
fn cross_product_in_space() {
    let x = Vec3f::new(fx(1.0), fx(0.0), fx(0.0));
    let y = Vec3f::new(fx(0.0), fx(1.0), fx(0.0));
    let z = Vec3f::new(fx(0.0), fx(0.0), fx(1.0));
    assert_eq!(x.cross(y), z);
    assert_eq!(y.cross(x), z.scaled(fx(-1.0)));
    assert_eq!(Vec3f::from_vec2(vec(1.0, 2.0)), Vec3f::new(fx(1.0), fx(2.0), fx(0.0)));
}

#[test]
fn matrices_scale_turn_and_invert() {
    let scale = Mat2f::scale(vec(2.0, 4.0));
    assert_eq!(scale.apply(vec(1.0, 1.0)), vec(2.0, 4.0));
    assert_eq!(scale.determinant(), fx(8.0));
    let inverse = scale.inverse();
    assert_eq!(inverse.apply(vec(2.0, 4.0)), vec(1.0, 1.0));
    let quarter = Mat2f::from_sin_cos(fx(1.0), fx(0.0));
    assert_eq!(quarter.apply(vec(1.0, 0.0)), vec(0.0, 1.0));
    assert_eq!(quarter.times(&scale).apply(vec(1.0, 0.0)), vec(0.0, 2.0));
    assert_eq!(Mat2f::identity().apply(vec(3.0, 5.0)), vec(3.0, 5.0));
    let turned = Mat2f::rotation(fx(std::f64::consts::FRAC_PI_2)).apply(vec(1.0, 0.0));
    assert!(as_f64(turned.x).abs() < 0.00001 && (as_f64(turned.y) - 1.0).abs() < 0.00001);
    let m = Mat3f::new([
        fx(2.0), fx(0.0), fx(0.0),
        fx(0.0), fx(4.0), fx(0.0),
        fx(0.0), fx(0.0), fx(8.0),
    ]);
    assert_eq!(m.determinant(), fx(64.0));
    let inverse = m.inverse();
    assert_eq!(inverse.array[0], fx(0.5));
    assert_eq!(inverse.array[4], fx(0.25));
    assert_eq!(inverse.array[8], fx(0.125));
    assert_eq!(inverse.array[1], fx(0.0));
}

#[test]
fn colours_blend_and_darken() {
    let red = BGRA8::new(255, 0, 0, 128);
    let blue = BGRA8::new(0, 0, 255, 255);
    // (255 * 128 + 0 * 127) >> 8 = 127 and (0 * 128 + 255 * 127) >> 8 = 126.
    assert_eq!(red.blend(blue), BGRA8::new(127, 0, 126, 255));
    assert_eq!(BGRA8::new(200, 100, 50, 77).darken(128), BGRA8::new(100, 50, 25, 77));
    assert_eq!(BGRA8::new(200, 100, 50, 77).darken(0), BGRA8::new(0, 0, 0, 77));
    assert_eq!(BGRA8::new(200, 100, 50, 77).darken(255), BGRA8::new(199, 99, 49, 77));
    assert_eq!(BGRA8::new(1, 2, 3, 4).as_u32(), 0x04010203);
    assert_eq!(BGRA8::from_rgb(RGB8::new(1, 2, 3)), BGRA8::new(1, 2, 3, 255));
    assert_eq!(RGB8::new(255, 0, 100).blend(RGB8::new(0, 255, 100), 255), RGB8::new(254, 0, 99));
    assert_eq!(RGB8::new(1, 2, 3).as_u32(), 0xFF030201);
    assert_eq!(BGRA8::orange(), BGRA8::new(0xFF, 0xA5, 0x00, 0xFF));
    assert_eq!(BGRA8::black().a, 255);
    assert_eq!(BGRA8::clear(), BGRA8::new(0, 0, 0, 0));
}

#[test]
fn lighten_raises_every_channel_to_full_or_wraps() {
    // A scaled channel below 255 becomes 255; 255 * 512 >> 8 = 510 keeps
    // its low eight bits, 254.
    assert_eq!(BGRA8::new(10, 100, 255, 9).lighten(256), BGRA8::new(255, 255, 255, 9));
    assert_eq!(BGRA8::new(255, 255, 255, 9).lighten(512), BGRA8::new(254, 254, 254, 9));
}

#[test]
fn lighten_takes_any_factor_whose_products_fit() {
    // 3 * 2^32 >> 8 = 3 * 2^24, whose low eight bits are 0; a channel of 0
    // stays below 255 and becomes 255.
    assert_eq!(BGRA8::new(3, 0, 1, 7).lighten(1 << 32), BGRA8::new(0, 255, 0, 7));
    // 2 * (2^24 + 1000) >> 8 = 131079, whose low eight bits are 7.
    assert_eq!(BGRA8::new(2, 2, 2, 7).lighten((1 << 24) + 1000), BGRA8::new(7, 7, 7, 7));
}

#[test]
fn bitmap_gives_its_pixels_row_by_row() {
    let pixels: Vec<BGRA8> = (0..6).map(|i| BGRA8::new(i, 0, 0, 255)).collect();
    let bitmap = Bitmap::new(3, 2, pixels.clone());
    assert_eq!(bitmap.width(), 3);
    assert_eq!(bitmap.height(), 2);
    assert_eq!(bitmap.pixels(), &pixels[..]);
    assert_eq!(bitmap.get_pixel(2, 0), BGRA8::new(2, 0, 0, 255));
    assert_eq!(bitmap.get_pixel(0, 1), BGRA8::new(3, 0, 0, 255));
}

#[test]
fn png_bytes_become_a_bitmap_with_blue_first() {
    let bitmap = Bitmap::from_png_bytes(&PNG_RGBA).unwrap();
    assert_eq!((bitmap.width(), bitmap.height()), (2, 2));
    assert_eq!(bitmap.get_pixel(0, 0), BGRA8::new(255, 0, 0, 255));
    assert_eq!(bitmap.get_pixel(1, 0), BGRA8::new(0, 255, 0, 128));
    assert_eq!(bitmap.get_pixel(0, 1), BGRA8::new(0, 0, 255, 0));
    assert_eq!(bitmap.get_pixel(1, 1), BGRA8::new(10, 20, 30, 40));
    assert_eq!(bitmap.get_pixel(0, 0).b, 0);
    assert_eq!(bitmap.get_pixel(0, 0).r, 255);
}

#[test]
fn png_without_alpha_is_given_alpha() {
    let bitmap = Bitmap::from_png_bytes(&PNG_RGB).unwrap();
    assert_eq!((bitmap.width(), bitmap.height()), (2, 1));
    assert_eq!(bitmap.get_pixel(0, 0), BGRA8::new(1, 2, 3, 255));
    assert_eq!(bitmap.get_pixel(1, 0), BGRA8::new(4, 5, 6, 255));
}

#[test]
fn bytes_that_are_no_png_are_refused() {
    assert_eq!(Bitmap::from_png_bytes(&[1, 2, 3, 4]).unwrap_err(), BitmapError::ReadInfo);
    assert_eq!(Bitmap::from_png_bytes(&[]).unwrap_err(), BitmapError::ReadInfo);
    // The header is whole, the pixels are cut off.
    let cut = &PNG_RGBA[..50];
    assert_eq!(Bitmap::from_png_bytes(cut).unwrap_err(), BitmapError::ReadFrame);
    assert_eq!(BitmapError::ReadInfo.message(), "Failed to read info");
    assert_eq!(BitmapError::ReadFrame.message(), "Failed to read frame");
}

#[test]
fn frames_of_other_kinds_are_refused() {
    let frame = |bit_depth: u8, color_type: u8, data: Vec<u8>| DecodedFrame {
        width: 1,
        height: 1,
        bit_depth,
        color_type,
        data,
    };
    assert_eq!(Bitmap::from_frame(frame(16, 6, vec![0; 8])).unwrap_err(), BitmapError::BitDepth);
    assert_eq!(Bitmap::from_frame(frame(8, 2, vec![0; 4])).unwrap_err(), BitmapError::ColourType);
    assert_eq!(Bitmap::from_frame(frame(8, 6, vec![0; 3])).unwrap_err(), BitmapError::Truncated);
    let bitmap = Bitmap::from_frame(frame(8, 6, vec![1, 2, 3, 4])).unwrap();
    assert_eq!(bitmap.get_pixel(0, 0), BGRA8::new(1, 2, 3, 4));
}

#[test]
fn texture_levels_halve() {
    let pixels: Vec<BGRA8> = (0..128).map(|i| BGRA8::new(i as u8, 0, 0, 255)).collect();
    let texture = Texture::from_bitmap(Bitmap::new(16, 8, pixels)).unwrap();
    assert_eq!(texture.levels[0], MipLevel { width: 16, height: 8, offset: 0 });
    assert_eq!(texture.levels[1], MipLevel { width: 8, height: 4, offset: 128 });
    assert_eq!(texture.levels[2], MipLevel { width: 4, height: 2, offset: 160 });
    assert_eq!(texture.pixels.len(), 168);
    assert_eq!(texture.sample(5, 3, 0), BGRA8::new(53, 0, 0, 255));
}

#[test]
fn texture_sides_may_be_any_power_of_two_from_four_up() {
    let colour = BGRA8::new(7, 8, 9, 255);
    let texture = Texture::from_bitmap(Bitmap::new(32768, 4, vec![colour; 131072])).unwrap();
    assert_eq!(texture.levels[0], MipLevel { width: 32768, height: 4, offset: 0 });
    assert_eq!(texture.levels[1], MipLevel { width: 16384, height: 2, offset: 131072 });
    assert_eq!(texture.levels[2], MipLevel { width: 8192, height: 1, offset: 163840 });
    assert_eq!(texture.pixels.len(), 172032);
    assert_eq!(texture.sample(8191, 0, 2), colour);
    let tall = Texture::from_bitmap(Bitmap::new(4, 65536, vec![colour; 262144])).unwrap();
    assert_eq!(tall.levels[2], MipLevel { width: 1, height: 16384, offset: 327680 });
    assert_eq!(tall.sample(0, 16383, 2), colour);
}

#[test]
fn texture_of_one_colour_has_levels_of_that_colour() {
    let colour = BGRA8::new(90, 60, 30, 255);
    let texture = Texture::from_bitmap(Bitmap::new(8, 8, vec![colour; 64])).unwrap();
    for level in 0..3 {
        for y in 0..texture.levels[level].height {
            for x in 0..texture.levels[level].width {
                assert_eq!(texture.sample(x, y, level), colour);
            }
        }
    }
}

#[test]
fn textures_that_are_no_power_of_two_are_refused() {
    let colour = BGRA8::new(1, 1, 1, 255);
    assert_eq!(
        Texture::from_bitmap(Bitmap::new(6, 8, vec![colour; 48])).unwrap_err(),
        TextureError::Dimensions
    );
    assert_eq!(
        Texture::from_bitmap(Bitmap::new(2, 8, vec![colour; 16])).unwrap_err(),
        TextureError::Dimensions
    );
    assert_eq!(
        Texture::from_bitmap(Bitmap::new(8, 8, vec![colour; 63])).unwrap_err(),
        TextureError::PixelCount
    );
}

#[test]
fn box_filter_averages_the_visible_neighbours() {
    // A 4 by 4 image, all transparent but one column.
    let mut src = vec![BGRA8::new(0, 0, 0, 0); 16];
    for y in 0..4 {
        src[y * 4 + 1] = BGRA8::new(100, 50, 200, 255);
    }
    src[1] = BGRA8::new(200, 150, 100, 255);
    let marker = BGRA8::new(9, 9, 9, 9);
    let mut dst = vec![marker; 5];
    downscale_3x3_box_filter(&src, 4, 4, &mut dst);
    // Around (0, 0) lie rows 3, 0, 1 of column 1: two of the one colour
    // and one of the other.
    assert_eq!(dst[0], BGRA8::new(133, 83, 166, 255));
    // Around (2, 0) lie the same three pixels of column 1.
    assert_eq!(dst[1], BGRA8::new(133, 83, 166, 255));
    assert_eq!(dst[2], BGRA8::new(100, 50, 200, 255));
    // Beyond the reduced image nothing is written.
    assert_eq!(dst[4], marker);
    // Where all nine neighbours are transparent the pixel stays.
    let clear = vec![BGRA8::new(0, 0, 0, 0); 16];
    let mut kept = vec![marker; 4];
    downscale_3x3_box_filter(&clear, 4, 4, &mut kept);
    assert_eq!(kept, vec![marker; 4]);
}

#[test]
fn samples_wrap_and_clamp() {
    let src: Vec<BGRA8> = (0..12).map(|i| BGRA8::new(i, 0, 0, 255)).collect();
    assert_eq!(sample_wrap(&src, 4, 3, -1, 0).r, 3);
    assert_eq!(sample_wrap(&src, 4, 3, 4, 0).r, 0);
    assert_eq!(sample_wrap(&src, 4, 3, 1, -1).r, 9);
    assert_eq!(sample_wrap(&src, 4, 3, 5, 4).r, 5);
    assert_eq!(sample_clamp(&src, 4, 3, -7, 1).r, 4);
    assert_eq!(sample_clamp(&src, 4, 3, 9, 9).r, 11);
    assert_eq!(sample_clamp(&src, 4, 3, 2, 1).r, 6);
}

/// Two characters of 3 by 2 pixels, one pixel apart: a hash is a pixel that
/// is set, a dot one that is not.
fn font_bitmap() -> Bitmap {
    let on = BGRA8::new(255, 255, 255, 255);
    let off = BGRA8::new(0, 0, 0, 255);
    let rows = ["#.#_...", "###_.#."];
    let mut pixels = Vec::new();
    for row in rows {
        for c in row.chars() {
            pixels.push(if c == '#' { on } else { off });
        }
    }
    Bitmap::new(7, 2, pixels)
}

#[test]
fn font_is_kept_as_runs() {
    let font = Font::from_bitmap(&font_bitmap(), 3, 2, 1);
    assert_eq!(font.char_width(), 3);
    assert_eq!(font.char_height(), 2);
    let runs: Vec<(u8, usize)> = font.run_lengths().iter().map(|r| (r.value(), r.len())).collect();
    assert_eq!(
        runs,
        vec![
            // Set, clear, set: an empty run of black first, as every row
            // starts black.
            (0, 0), (1, 1), (0, 1), (1, 1),
            // Three set.
            (0, 0), (1, 3),
            // Three clear.
            (0, 3),
            // Clear, set, clear.
            (0, 1), (1, 1), (0, 1),
        ]
    );
    assert_eq!(font.char_metadata(), &[CharMetadata::new(0, 6), CharMetadata::new(6, 4)][..]);
    assert_eq!(font.char_metadata()[1].offset(), 6);
    assert_eq!(font.char_metadata()[1].len(), 4);
    assert_eq!(RunLength::new(1, 7).len(), 7);
}

#[test]
fn text_is_drawn_from_the_runs() {
    let font = Font::from_bitmap(&font_bitmap(), 3, 2, 1);
    let mut state = RendererState::new(8, 6, Fixed::from_int(75));
    let text = TextRenderer::new(&state);
    let ink = BGRA8::new(1, 2, 3, 255);
    // Character 0, then character 1, a newline, character 1.
    let bytes = [0u8, 1, 10, 1];
    text.draw_text(&mut state.framebuffer, &font, ink, 1, 1, &bytes);
    let drawn: Vec<String> = (0..6)
        .map(|y| {
            (0..8).map(|x| if state.framebuffer.get_pixel(x, y) == ink { '#' } else { '.' }).collect()
        })
        .collect();
    assert_eq!(
        drawn,
        vec!["........", ".#.#....", ".###.#..", "........", "..#.....", "........"]
    );
}

#[test]
fn text_is_cut_at_the_edges_of_the_screen() {
    let font = Font::from_bitmap(&font_bitmap(), 3, 2, 1);
    let mut state = RendererState::new(4, 2, Fixed::from_int(75));
    let text = TextRenderer::new(&state);
    let ink = BGRA8::new(1, 2, 3, 255);
    // The character starts in the last but one column and in the last row.
    text.draw_char(&mut state.framebuffer, &font, ink, 0, 2, 1);
    let drawn: Vec<String> = (0..2)
        .map(|y| {
            (0..4).map(|x| if state.framebuffer.get_pixel(x, y) == ink { '#' } else { '.' }).collect()
        })
        .collect();
    assert_eq!(drawn, vec!["....", "..#."]);
}

#[test]
fn text_aligned_right_ends_at_its_point() {
    let font = Font::from_bitmap(&font_bitmap(), 3, 2, 1);
    let mut state = RendererState::new(12, 4, Fixed::from_int(75));
    let text = TextRenderer::new(&state);
    let ink = BGRA8::new(1, 2, 3, 255);
    // Two characters and a newline: a line 6 pixels wide, two lines high.
    text.render(&mut state, &font, ink, (AlignWidth::Right, AlignHeight::Bottom), 10, 4, "\u{1}\u{1}\n");
    let drawn: Vec<String> = (0..4)
        .map(|y| {
            (0..12).map(|x| if state.framebuffer.get_pixel(x, y) == ink { '#' } else { '.' }).collect()
        })
        .collect();
    assert_eq!(drawn, vec!["............", ".....#..#...", "............", "............"]);
    // Text whose top left lies off the screen is not drawn.
    let before: Vec<BGRA8> = state.framebuffer.pixels().to_vec();
    text.render(&mut state, &font, ink, (AlignWidth::Left, AlignHeight::Top), 12, 0, "\u{1}");
    assert_eq!(state.framebuffer.pixels(), &before[..]);
}

#[test]
fn fixed_vec_holds_up_to_its_limit() {
    let mut items: FixedVec<u32, 3> = FixedVec::new();
    assert_eq!(items.len(), 0);
    assert_eq!(items.pop(), None);
    items.push(10);
    items.push(20);
    items.push(30);
    assert_eq!(items.len(), 3);
    assert_eq!(items.get(1), Some(&20));
    assert_eq!(items.get(3), None);
    assert_eq!(items.last(), Some(&30));
    assert_eq!(items.iter(), &[10, 20, 30][..]);
    assert_eq!(items.swap_remove(0), Some(10));
    assert_eq!(items.as_slice(), &[30, 20][..]);
    assert_eq!(items.swap_remove(5), None);
    assert_eq!(items.pop(), Some(20));
    for item in items.iter_mut() {
        *item += 1;
    }
    assert_eq!(items.as_slice(), &[31][..]);
    assert!(items.set(0, 7));
    assert!(!items.set(1, 7));
    assert_eq!(*items.get_unchecked(0), 7);
    items.clear();
    assert_eq!(items.len(), 0);
    assert_eq!(items.last(), None);
}

#[test]
fn test_input() {
    let mut input = Input::new();
    let event = Event::KeyboardEvent(KeyboardEvent::KeyPressed(KeyCode::A));
    input.update();
    input.handle_event(&event);
    assert!(input.keyboard.is_key_pressed(KeyCode::A));
}

#[test]
fn test_mouse() {
    let mut mouse = Mouse::new();
    let event = PointerEvent::MouseMoved { delta: vec(1.0, 1.0) };
    mouse.update();
    mouse.on_pointer_event(&event);
    assert!(mouse.moved);
}

#[test]
fn a_key_is_pressed_once_and_held_until_released() {
    let mut input = Input::new();
    input.handle_event(&Event::KeyboardEvent(KeyboardEvent::KeyPressed(KeyCode::W)));
    assert!(input.keyboard.is_key_pressed(KeyCode::W));
    assert!(input.keyboard.is_key_held(KeyCode::W));
    assert!(!input.keyboard.is_key_held(KeyCode::S));
    // The key repeats while it is held: it is not pressed anew.
    input.handle_event(&Event::KeyboardEvent(KeyboardEvent::KeyPressed(KeyCode::W)));
    assert!(!input.keyboard.is_key_pressed(KeyCode::W));
    input.update();
    assert!(!input.keyboard.is_key_pressed(KeyCode::W));
    assert!(input.keyboard.is_key_held(KeyCode::W));
    input.handle_event(&Event::KeyboardEvent(KeyboardEvent::KeyReleased(KeyCode::W)));
    assert!(!input.keyboard.is_key_held(KeyCode::W));
    input.handle_event(&Event::Other);
    assert!(!input.keyboard.is_key_held(KeyCode::W));
}

#[test]
fn the_mouse_adds_up_its_moves_until_the_frame_ends() {
    let mut mouse = Mouse::new();
    mouse.on_pointer_event(&PointerEvent::MouseMoved { delta: vec(1.0, 2.0) });
    mouse.on_pointer_event(&PointerEvent::MouseMoved { delta: vec(0.5, -3.0) });
    assert_eq!(mouse.get_delta(), vec(1.5, -1.0));
    assert!(mouse.is_moved());
    mouse.on_pointer_event(&PointerEvent::MouseButtonPressed(MouseButton::Left));
    assert!(mouse.is_button_pressed(MouseButton::Left));
    assert!(mouse.is_button_held(MouseButton::Left));
    assert!(!mouse.is_button_held(MouseButton::Right));
    mouse.on_pointer_event(&PointerEvent::MouseEntered);
    assert!(mouse.is_on_window());
    mouse.update();
    assert_eq!(mouse.get_delta(), Vec2f::zero());
    assert!(!mouse.is_moved());
    assert!(!mouse.is_button_pressed(MouseButton::Left));
    assert!(mouse.is_button_held(MouseButton::Left));
    mouse.on_pointer_event(&PointerEvent::MouseButtonReleased(MouseButton::Left));
    assert!(!mouse.is_button_held(MouseButton::Left));
    mouse.on_pointer_event(&PointerEvent::MouseExited);
    assert!(!mouse.is_on_window());
    assert!(!mouse.is_grabbed());
    assert_eq!(mouse.get_position(), Vec2f::zero());
}

#[test]
fn every_key_has_its_own_state() {
    assert_eq!(KeyCode::Digit0.index(), 0);
    assert_eq!(KeyCode::A.index(), 10);
    assert_eq!(KeyCode::F1.index(), 36);
    assert!(KeyCode::Fn.index() < 108);
    assert_eq!(MouseButton::Other.index(), 5);
}

#[test]
fn window_attributes_have_their_defaults() {
    let attributes = WindowAttributes::default();
    assert_eq!(attributes.title, "Espresso App");
    assert!(attributes.resizable);
    assert!(attributes.visible_cursor);
    assert!(!attributes.fullscreen);
    assert_eq!(attributes.size, WindowSize::new(640, 480));
    assert_eq!(attributes.position, WindowPosition::new(0, 0));
    assert_eq!(attributes.max_size, None);
}

#[test]
fn framebuffer_sets_blends_and_fills() {
    let mut fb = Framebuffer::new(4, 3);
    assert_eq!(fb.pixels().len(), 12);
    assert_eq!(as_f64(fb.half_width()), 2.0);
    assert_eq!(as_f64(fb.half_height()), 1.5);
    assert_eq!(fb.aspect_ratio(), Fixed::from_ratio(4, 3));
    fb.fill(BGRA8::new(0, 0, 255, 77));
    fb.set_pixel(1, 2, BGRA8::new(9, 8, 7, 6));
    assert_eq!(fb.get_pixel(1, 2), BGRA8::new(9, 8, 7, 6));
    assert_eq!(fb.pixels()[2 * 4 + 1], BGRA8::new(9, 8, 7, 6));
    assert_eq!(fb.get_pixel(2, 1), BGRA8::new(0, 0, 255, 77));
    // The colour laid over weighs by its own alpha; the pixel keeps its
    // alpha.
    fb.blend_pixel(2, 1, BGRA8::new(255, 0, 0, 128));
    assert_eq!(fb.get_pixel(2, 1), BGRA8::new(127, 0, 126, 77));
    fb.draw_h_line(1, 0, 2, BGRA8::white());
    assert_eq!(fb.get_pixel(0, 0), BGRA8::new(0, 0, 255, 77));
    assert_eq!(fb.get_pixel(1, 0), BGRA8::white());
    assert_eq!(fb.get_pixel(2, 0), BGRA8::white());
    assert_eq!(fb.get_pixel(3, 0), BGRA8::new(0, 0, 255, 77));
    assert_eq!(fb.pixels_as_u32()[0], 0x4D0000FF);
    assert_eq!(&fb.pixels_as_u8()[..4], &[255, 0, 0, 77][..]);
}

#[test]
fn line_is_drawn_step_by_step() {
    let mut fb = Framebuffer::new(6, 4);
    let ink = BGRA8::new(1, 2, 3, 255);
    fb.draw_line(vec(0.0, 0.0), vec(4.0, 2.0), ink);
    let drawn: Vec<String> = (0..4)
        .map(|y| (0..6).map(|x| if fb.get_pixel(x, y) == ink { '#' } else { '.' }).collect())
        .collect();
    // Four steps of (1, 0.5) from the start; the end itself is not set.
    assert_eq!(drawn, vec!["#.....", ".##...", "...#..", "......"]);
    // A line from beyond the screen starts at its edge.
    let mut fb = Framebuffer::new(6, 4);
    fb.draw_line(vec(-10.0, 3.0), vec(2.0, 3.0), ink);
    assert_eq!(fb.get_pixel(0, 3), ink);
    assert_eq!(fb.get_pixel(1, 3), ink);
    assert_eq!(fb.get_pixel(2, 3), BGRA8::clear());
}

#[test]
fn portal_tree_adds_rows_as_nodes_go_deeper() {
    let mut tree = PortalTree::new(5, 9);
    assert_eq!(tree.nodes_len(), 0);
    assert_eq!(tree.portal_bounds_min.len(), 1);
    let node = |depth: usize| PortalNode {
        tree_depth: depth,
        sector_index: 3,
        x_min: 1,
        x_max: 4,
        depth_min: Fixed::zero(),
        depth_max: Fixed::one(),
    };
    tree.push_node(node(0));
    tree.push_node(node(2));
    assert_eq!(tree.nodes_len(), 2);
    assert_eq!(tree.portal_bounds_min.len(), 3);
    assert_eq!(tree.get_bounds(2), (&[0u16; 5][..], &[9u16; 5][..]));
    assert_eq!(*tree.get_node(1), node(2));
    tree.set_bounds(2, 3, 4, 6);
    assert_eq!(tree.bounds_at(2, 3), (4, 6));
    {
        let (first, second) = tree.get_many_bounds_mut(2, 0);
        assert_eq!((first.0[3], first.1[3]), (4, 6));
        first.0[3] = 5;
        second.1[0] = 8;
    }
    assert_eq!(tree.bounds_at(2, 3), (5, 6));
    assert_eq!(tree.bounds_at(0, 0), (0, 8));
    // A reset drops the nodes and opens depth 0; deeper rows stay.
    tree.reset();
    assert_eq!(tree.nodes_len(), 0);
    assert_eq!(tree.bounds_at(0, 0), (0, 9));
    assert_eq!(tree.bounds_at(2, 3), (5, 6));
    tree.resize_bounds(7, 4);
    assert_eq!(tree.get_bounds(2), (&[0u16; 7][..], &[4u16; 7][..]));
    let deep = PortalTree::with_depth(4, 2, 2);
    assert_eq!(deep.portal_bounds_max.len(), 4);
}

#[test]
fn portal_tree_takes_a_node_for_every_portal() {
    let mut tree = PortalTree::new(8, 6);
    let node = |depth: usize, sector: usize| PortalNode {
        tree_depth: depth,
        sector_index: sector,
        x_min: 2,
        x_max: 5,
        depth_min: Fixed::zero(),
        depth_max: Fixed::one(),
    };
    tree.push_node(node(0, 0));
    // Far more windows than one frame usually has, all seen through the
    // first one.
    for i in 0..3000 {
        tree.note_portal(0, Fixed::from_int(i as i32), node(1, i + 1));
        assert_eq!(tree.nodes_len(), i + 2);
    }
    assert_eq!(*tree.get_node(3000), node(1, 3000));
    assert_eq!(*tree.get_node(1025), node(1, 1025));
    // The window they were seen through has the greatest depth noted.
    assert_eq!(tree.get_node(0).depth_max, Fixed::from_int(2999));
    assert_eq!(tree.get_node(0).x_min, 2);
    assert_eq!(tree.portal_bounds_min.len(), 2);
}
