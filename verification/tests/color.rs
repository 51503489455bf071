use kanden::registry::color::{ARGB, RGB};

#[test]
fn rgb_keeps_24_bits() {
    assert_eq!(RGB::new(0x12345678).value(), 0x345678);
    assert_eq!(RGB::new(0xFFFFFF).value(), 0xFFFFFF);
    assert_eq!(RGB::new(0), RGB(0));
}

#[test]
fn rgb_components() {
    let color = RGB::from_rgb(0xFF, 0x80, 0x01);
    assert_eq!(color.value(), 0xFF8001);
    assert_eq!(color.red(), 0xFF);
    assert_eq!(color.green(), 0x80);
    assert_eq!(color.blue(), 0x01);
    assert_eq!(RGB(0xAABBCCDD).red(), 0xBB);
}

#[test]
fn rgb_to_hex_string() {
    assert_eq!(RGB::from_rgb(0xFF, 0x80, 0x01).to_hex_string(), "#ff8001");
    assert_eq!(RGB(0).to_hex_string(), "#000000");
    assert_eq!(RGB(0xABC).to_hex_string(), "#000abc");
    // More than 24 bits take more than six digits.
    assert_eq!(RGB(0x1FFFFFF).to_hex_string(), "#1ffffff");
    assert_eq!(RGB(0xFFFFFFFF).to_hex_string(), "#ffffffff");
}

#[test]
fn rgb_from_hex_string() {
    assert_eq!(RGB::from_hex_string("#ff8001"), Ok(RGB(0xFF8001)));
    assert_eq!(RGB::from_hex_string("FF8001"), Ok(RGB(0xFF8001)));
    assert_eq!(RGB::from_hex_string("#1"), Ok(RGB(1)));
    assert_eq!(RGB::from_hex_string("+1f"), Ok(RGB(0x1F)));
    assert_eq!(RGB::from_hex_string("#12345678"), Ok(RGB(0x345678)));
    assert!(RGB::from_hex_string("").is_err());
    assert!(RGB::from_hex_string("#").is_err());
    assert!(RGB::from_hex_string("##ff").is_err());
    assert!(RGB::from_hex_string("#ff80g1").is_err());
    assert!(RGB::from_hex_string("-1").is_err());
    assert!(RGB::from_hex_string("+").is_err());
    assert!(RGB::from_hex_string(" ff").is_err());
    assert!(RGB::from_hex_string("#100000000").is_err());
}

#[test]
fn rgb_text_roundtrip() {
    for value in [0u32, 1, 0xABC, 0x800000, 0xFFFFFF] {
        let color = RGB::new(value);
        assert_eq!(RGB::from_hex_string(&color.to_hex_string()), Ok(color));
        assert_eq!(color.to_hex_string().len(), 7);
    }
}

#[test]
fn argb_components() {
    let color = ARGB::from_argb(0x80, 0xFF, 0x40, 0x01);
    assert_eq!(color.value(), 0x80FF4001);
    assert_eq!(color.alpha(), 0x80);
    assert_eq!(color.red(), 0xFF);
    assert_eq!(color.green(), 0x40);
    assert_eq!(color.blue(), 0x01);
    assert_eq!(ARGB::new(0x80FF4001), color);
    assert_eq!(ARGB::from_rgb(1, 2, 3).value(), 0xFF010203);
}

#[test]
fn argb_opacity() {
    assert!(ARGB::from_rgb(1, 2, 3).is_opaque());
    assert!(!ARGB::from_rgb(1, 2, 3).is_transparent());
    assert!(ARGB::new(0x00FFFFFF).is_transparent());
    assert!(!ARGB::new(0x00FFFFFF).is_opaque());
    assert!(!ARGB::new(0x80000000).is_opaque());
    assert!(!ARGB::new(0x80000000).is_transparent());
}

#[test]
fn argb_to_hex_string() {
    assert_eq!(ARGB::from_argb(0x80, 0xFF, 0x40, 0x01).to_hex_string(), "#80ff4001");
    assert_eq!(ARGB::new(0).to_hex_string(), "#00000000");
    assert_eq!(ARGB::new(0xABC).to_hex_string(), "#00000abc");
}

#[test]
fn argb_from_hex_string() {
    assert_eq!(ARGB::from_hex_string("#80ff4001"), Ok(ARGB(0x80FF4001)));
    // Six characters are a color without alpha, made opaque.
    assert_eq!(ARGB::from_hex_string("#ff4001"), Ok(ARGB(0xFFFF4001)));
    assert_eq!(ARGB::from_hex_string("FF4001"), Ok(ARGB(0xFFFF4001)));
    assert_eq!(ARGB::from_hex_string("+12345"), Ok(ARGB(0xFF012345)));
    assert_eq!(ARGB::from_hex_string("#12345"), Ok(ARGB(0x12345)));
    assert_eq!(ARGB::from_hex_string("#1234567"), Ok(ARGB(0x1234567)));
    assert!(ARGB::from_hex_string("").is_err());
    assert!(ARGB::from_hex_string("#gggggg").is_err());
    assert!(ARGB::from_hex_string("#123456789").is_err());
}

#[test]
fn argb_text_roundtrip() {
    for value in [0u32, 1, 0xABC, 0xFFFFFF, 0x80000000, 0xFFFFFFFF] {
        let color = ARGB::new(value);
        assert_eq!(ARGB::from_hex_string(&color.to_hex_string()), Ok(color));
        assert_eq!(color.to_hex_string().len(), 9);
    }
}

#[test]
fn argb_conversions() {
    assert_eq!(ARGB::from(0x12345678u32), ARGB(0x12345678));
    assert_eq!(u32::from(ARGB(0x12345678)), 0x12345678);
    assert_eq!(ARGB::from(RGB(0x345678)), ARGB(0xFF345678));
    let text = RGB(0x345678).to_hex_string();
    assert_eq!(ARGB::from_hex_string(&text), Ok(ARGB::from(RGB(0x345678))));
}
