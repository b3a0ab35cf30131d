use mage::{
    font_from_rgba, key_command, load_font_image, min_window_size, new_colour, window_size,
    Colour, FrameAction, FrameOutcome, KeyCommand, RogueBuilder, RogueError, SurfaceLifecycle,
    SurfacePhase, SystemKey,
};

fn font(glyph_w: u32, glyph_h: u32) -> mage::RogueFontData {
    let (w, h) = (glyph_w * 16, glyph_h * 16);
    let bytes = vec![0u8; 64];
    match font_from_rgba(w, h, &bytes) {
        Ok(f) => f,
        Err(_) => panic!("font refused"),
    }
}

#[test]
fn colours_pack_with_full_alpha() {
    assert_eq!(new_colour(1, 2, 3), 0xff03_0201);
    assert_eq!(new_colour(0, 0, 0), 0xff00_0000);
    let red: u32 = Colour::Red.into();
    let cyan: u32 = Colour::Cyan.into();
    let white: u32 = Colour::White.into();
    let yellow: u32 = Colour::Yellow.into();
    assert_eq!(red, 0xff00_00ff);
    assert_eq!(cyan, 0xffff_ff00);
    assert_eq!(white, 0xffff_ffff);
    assert_eq!(yellow, 0xff00_ffff);
}

#[test]
fn font_from_rgba_splits_atlas_and_packs_pixels() {
    let mut bytes = vec![0u8; 32 * 16 * 4];
    bytes[0] = 0x11;
    bytes[1] = 0x22;
    bytes[2] = 0x33;
    bytes[3] = 0x44;
    let f = match font_from_rgba(32, 16, &bytes) {
        Ok(f) => f,
        Err(_) => panic!("font refused"),
    };
    assert_eq!(f.width(), 2);
    assert_eq!(f.height(), 1);
    assert_eq!(f.data().len(), 32 * 16);
    assert_eq!(f.data()[0], 0x4433_2211);
    assert_eq!(f.data()[1], 0);
}

#[test]
fn font_from_rgba_refuses_small_atlas() {
    let bytes = vec![0u8; 15 * 32 * 4];
    assert!(matches!(font_from_rgba(15, 32, &bytes), Err(RogueError::BadFont)));
    assert!(matches!(font_from_rgba(32, 0, &[].to_vec()), Err(RogueError::BadFont)));
}

#[test]
fn load_font_image_refuses_garbage() {
    let r = load_font_image(b"not an image", image::ImageFormat::Png);
    assert!(matches!(r, Err(RogueError::BadFont)));
}

#[test]
fn load_font_image_decodes_png() {
    let (w, h) = (48u32, 32u32);
    let mut pixels = vec![0u8; (w * h * 4) as usize];
    pixels[4] = 0xaa;
    pixels[7] = 0xff;
    let mut png: Vec<u8> = Vec::new();
    image::png::PngEncoder::new(&mut png)
        .encode(&pixels, w, h, image::ColorType::Rgba8)
        .unwrap();
    let f = match load_font_image(&png, image::ImageFormat::Png) {
        Ok(f) => f,
        Err(_) => panic!("png refused"),
    };
    assert_eq!(f.width(), 3);
    assert_eq!(f.height(), 2);
    assert_eq!(f.data().len(), (w * h) as usize);
    assert_eq!(f.data()[1], 0xff00_00aa);
}

#[test]
fn load_font_image_refuses_tiny_png() {
    let pixels = vec![0u8; 8 * 8 * 4];
    let mut png: Vec<u8> = Vec::new();
    image::png::PngEncoder::new(&mut png)
        .encode(&pixels, 8, 8, image::ColorType::Rgba8)
        .unwrap();
    assert!(matches!(load_font_image(&png, image::ImageFormat::Png), Err(RogueError::BadFont)));
}

#[test]
fn builder_defaults() {
    let ((w, h), title, f) = RogueBuilder::new().into_parts();
    assert_eq!((w, h), (100, 100));
    assert_eq!(title, "md-rogue window");
    assert!(f.is_none());
    let ((w, h), title, _) = RogueBuilder::default().into_parts();
    assert_eq!((w, h, title.as_str()), (100, 100, "md-rogue window"));
}

#[test]
fn builder_chain_and_build() {
    let mut b = RogueBuilder::new();
    b.with_inner_size(800, 600).with_title("Hello, World!").with_font(font(8, 16));
    let built = b.build();
    let ((w, h), title, f) = built.into_parts();
    assert_eq!((w, h), (800, 600));
    assert_eq!(title, "Hello, World!");
    assert_eq!(f.map(|f| (f.width(), f.height())), Some((8, 16)));
    let ((w, h), title, f) = b.into_parts();
    assert_eq!((w, h), (800, 600));
    assert_eq!(title, "Hello, World!");
    assert!(f.is_none());
}

#[test]
fn window_sizes_round_to_glyphs() {
    let f = font(8, 16);
    assert_eq!(window_size((800, 600), &f), (800, 592));
    assert_eq!(window_size((5, 5), &f), (16, 16));
    assert_eq!(min_window_size(&f), (160, 320));
    let huge = font(0x0fff_ffff, 1);
    assert_eq!(min_window_size(&huge), (u32::MAX, 20));
}

#[test]
fn grid_size_is_whole_glyphs() {
    let f = font(8, 16);
    let s = SurfaceLifecycle::new(805, 600);
    assert_eq!(s.grid_size(&f), (100, 37));
}

#[test]
fn resize_to_zero_and_back_then_present() {
    let mut s = SurfaceLifecycle::new(800, 600);
    assert!(s.frame_due());
    assert!(!s.resize(0, 0));
    assert_eq!(s.phase, SurfacePhase::Ready);
    assert!(!s.frame_due());
    assert!(s.resize(800, 600));
    assert!(s.frame_due());
    assert_eq!(s.frame_finished(FrameOutcome::Presented), FrameAction::Continue);
    assert_eq!(s.phase, SurfacePhase::Ready);
    assert_eq!((s.width, s.height), (800, 600));
}

#[test]
fn lost_surface_degrades_until_rebuilt() {
    let mut s = SurfaceLifecycle::new(640, 480);
    assert_eq!(s.frame_finished(FrameOutcome::Lost), FrameAction::Recover);
    assert_eq!(s.phase, SurfacePhase::Degraded);
    assert!(!s.frame_due());
    assert!(s.resize(640, 480));
    assert_eq!(s.phase, SurfacePhase::Ready);
    assert!(s.frame_due());
}

#[test]
fn out_of_memory_terminates() {
    let mut s = SurfaceLifecycle::new(640, 480);
    assert_eq!(s.frame_finished(FrameOutcome::OutOfMemory), FrameAction::Exit);
    assert_eq!(s.phase, SurfacePhase::Terminated);
    assert!(!s.resize(800, 600));
    assert_eq!((s.width, s.height), (640, 480));
    assert!(!s.frame_due());
    assert_eq!(s.frame_finished(FrameOutcome::Presented), FrameAction::Exit);
}

#[test]
fn other_failure_is_reported_and_dropped() {
    let mut s = SurfaceLifecycle::new(640, 480);
    assert_eq!(s.frame_finished(FrameOutcome::Failed), FrameAction::Report);
    assert_eq!(s.phase, SurfacePhase::Ready);
    assert!(s.frame_due());
}

#[test]
fn system_keys() {
    assert_eq!(key_command(true, false, false, false, SystemKey::Escape), KeyCommand::Exit);
    assert_eq!(key_command(false, false, false, false, SystemKey::Escape), KeyCommand::Nothing);
    assert_eq!(key_command(true, true, false, false, SystemKey::Return), KeyCommand::ToggleFullscreen);
    assert_eq!(key_command(true, true, true, false, SystemKey::Return), KeyCommand::Nothing);
    assert_eq!(key_command(true, false, false, false, SystemKey::Return), KeyCommand::Nothing);
    assert_eq!(key_command(true, true, false, false, SystemKey::Other), KeyCommand::Nothing);
}
