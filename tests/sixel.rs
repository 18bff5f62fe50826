use viuer::{check_device_attrs, Config, IcySixelPrinter, Image, Key, TestKeys};

fn keys(s: &str) -> Vec<Key> {
    let mut v = vec![Key::UnknownEscSeq(vec!['[', '?'])];
    for c in s.chars() {
        v.push(Key::Char(c));
    }
    v
}

#[test]
fn device_attributes_with_sixel() {
    let mut stdout = Vec::new();
    let mut input = TestKeys::new(keys("62;4;22c"));
    assert!(check_device_attrs(&mut input, &mut stdout));
    assert_eq!(stdout, b"\x1b[c");
    assert!(input.reached_end());

    let mut input = TestKeys::new(keys("62;22;4c"));
    assert!(check_device_attrs(&mut input, &mut Vec::new()));
}

#[test]
fn device_attributes_without_sixel() {
    let mut input = TestKeys::new(keys("62;22;42c"));
    assert!(!check_device_attrs(&mut input, &mut Vec::new()));
    let mut input = TestKeys::new(vec![Key::Unknown, Key::Char(';')]);
    assert!(!check_device_attrs(&mut input, &mut Vec::new()));
    assert!(!input.reached_end());
}

#[test]
fn sixel_print_writes_device_control_string() {
    let mut img = Image::new(4, 4);
    img.put_pixel(0, 0, [255, 0, 0, 255]);
    let config = Config {
        absolute_offset: false,
        width: Some(2),
        height: Some(1),
        ..Default::default()
    };
    let mut out = Vec::new();
    assert_eq!(IcySixelPrinter.print(&mut out, &img, &config, (80, 24)).unwrap(), (2, 1));
    assert!(out.starts_with(b"\x1bP"));
}
