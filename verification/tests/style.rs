use ui_kit::style::{
    frosted_rim, hsla, raised_shadow, BoxShadow, Hsla, ThemeMode, CHANNEL_MAX,
    FROSTED_RIM_ALPHA_DARK, FROSTED_RIM_ALPHA_LIGHT, SURFACE_SHADOW_INK,
};

fn unit(v: u16) -> f32 {
    v as f32 / 1000.
}

#[test]
fn frosted_rim_in_dark_theme() {
    let c = frosted_rim(ThemeMode::Dark);
    assert_eq!(c, Hsla { h: 0, s: 0, l: 1000, a: 160 });
    assert_eq!(unit(c.a), 0.16f32);
    assert_eq!(unit(c.l), 1.0f32);
}

#[test]
fn frosted_rim_in_light_theme() {
    let c = frosted_rim(ThemeMode::Light);
    assert_eq!(c, Hsla { h: 0, s: 0, l: 1000, a: 800 });
    assert_eq!(unit(c.a), 0.8f32);
}

#[test]
fn rim_is_fainter_in_dark_theme() {
    assert!(frosted_rim(ThemeMode::Dark).a < frosted_rim(ThemeMode::Light).a);
    assert_eq!(FROSTED_RIM_ALPHA_DARK, 160);
    assert_eq!(FROSTED_RIM_ALPHA_LIGHT, 800);
}

#[test]
fn theme_mode_darkness() {
    assert!(ThemeMode::Dark.is_dark());
    assert!(!ThemeMode::Light.is_dark());
}

#[test]
fn hsla_keeps_channels() {
    assert_eq!(hsla(1, 2, 3, 4), Hsla { h: 1, s: 2, l: 3, a: 4 });
    assert_eq!(CHANNEL_MAX, 1000);
}

#[test]
fn raised_shadow_layers() {
    let ink = Hsla { h: 0, s: 0, l: 0, a: 100 };
    assert_eq!(unit(SURFACE_SHADOW_INK), 0.1f32);
    assert_eq!(
        raised_shadow(),
        vec![
            BoxShadow { color: ink, offset_x: 0, offset_y: 10, blur_radius: 15, spread_radius: 0 },
            BoxShadow { color: ink, offset_x: 0, offset_y: 10, blur_radius: 10, spread_radius: -10 },
        ]
    );
    // tenths of a pixel: 1px down, 1.5px blur
    assert_eq!(raised_shadow()[0].blur_radius as f32 / 10., 1.5f32);
}
