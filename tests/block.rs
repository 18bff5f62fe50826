use viuer::{print_to_writecolor, write_colored_character, BlockPrinter, Color, ColorSpec, Config, Image};

const TERM: (u16, u16) = (80, 24);

// Note: truecolor is not supported in CI. Hence, it should be disabled when writing the tests

#[test]
fn test_block_printer_e2e() {
    let img = Image::new(5, 4);
    let mut buf = Vec::new();

    let config = Config {
        truecolor: false,
        ..Default::default()
    };

    let (w, h) = print_to_writecolor(&mut buf, &img, &config).unwrap();
    assert_eq!((w, h), (5, 2));

    assert_eq!(
        std::str::from_utf8(&buf).unwrap(),
        "\x1b[1;1H\x1b[0m\x1b[38;5;247m\x1b[48;5;241m▄\x1b[0m\x1b[38;5;241m\x1b[48;5;247m▄\x1b[0m\x1b[38;5;247m\x1b[48;5;241m▄\x1b[0m\x1b[38;5;241m\x1b[48;5;247m▄\x1b[0m\x1b[38;5;247m\x1b[48;5;241m▄\x1b[0m\r\n\x1b[0m\x1b[38;5;247m\x1b[48;5;241m▄\x1b[0m\x1b[38;5;241m\x1b[48;5;247m▄\x1b[0m\x1b[38;5;247m\x1b[48;5;241m▄\x1b[0m\x1b[38;5;241m\x1b[48;5;247m▄\x1b[0m\x1b[38;5;247m\x1b[48;5;241m▄\x1b[0m\n"
    );
}

#[test]
fn test_block_printer_e2e_transparent() {
    let img = Image::new(5, 4);
    let mut buf = Vec::new();

    let config = Config {
        transparent: true,
        ..Default::default()
    };

    let (w, h) = print_to_writecolor(&mut buf, &img, &config).unwrap();
    assert_eq!((w, h), (5, 2));

    assert_eq!(
        std::str::from_utf8(&buf).unwrap(),
        "\x1b[1;1H\x1b[1C\x1b[1C\x1b[1C\x1b[1C\x1b[1C\x1b[0m\r\n\x1b[1C\x1b[1C\x1b[1C\x1b[1C\x1b[1C\x1b[0m\n"
    );
}

#[test]
fn test_block_printer_e2e_odd_height() {
    let img = Image::new(4, 3);
    let mut buf = Vec::new();

    let config = Config {
        truecolor: false,
        absolute_offset: false,
        ..Default::default()
    };
    let (w, h) = print_to_writecolor(&mut buf, &img, &config).unwrap();
    assert_eq!((w, h), (4, 2));

    assert_eq!(
        std::str::from_utf8(&buf).unwrap(),
        "\x1b[0m\x1b[38;5;247m\x1b[48;5;241m▄\x1b[0m\x1b[38;5;241m\x1b[48;5;247m▄\x1b[0m\x1b[38;5;247m\x1b[48;5;241m▄\x1b[0m\x1b[38;5;241m\x1b[48;5;247m▄\x1b[0m\r\n\x1b[0m\x1b[38;5;241m▀\x1b[0m\x1b[38;5;247m▀\x1b[0m\x1b[38;5;241m▀\x1b[0m\x1b[38;5;247m▀\x1b[0m\n"
    );
}

#[test]
fn test_write_colored_char_only_fg() {
    let mut buf = Vec::new();
    let mut c = ColorSpec::new();

    c.set_fg(Some(Color::Rgb(10, 20, 30)));

    write_colored_character(&mut buf, &c, false);
    assert_eq!(
        std::str::from_utf8(&buf).unwrap(),
        "\x1b[0m\x1b[38;2;10;20;30m▄"
    );
}

#[test]
fn test_write_colored_char_only_bg() {
    let mut buf = Vec::new();
    let mut c = ColorSpec::new();

    c.set_bg(Some(Color::Rgb(50, 60, 70)));

    write_colored_character(&mut buf, &c, false);
    assert_eq!(
        std::str::from_utf8(&buf).unwrap(),
        "\x1b[0m\x1b[38;2;50;60;70m▀"
    );
}

#[test]
fn test_write_colored_char_fg_and_bg() {
    let mut buf = Vec::new();
    let mut c = ColorSpec::new();

    c.set_fg(Some(Color::Rgb(10, 20, 30)));
    c.set_bg(Some(Color::Rgb(15, 25, 35)));

    write_colored_character(&mut buf, &c, false);
    assert_eq!(
        std::str::from_utf8(&buf).unwrap(),
        "\x1b[0m\x1b[38;2;10;20;30m\x1b[48;2;15;25;35m▄"
    );
}

#[test]
fn test_write_colored_char_no_color() {
    let mut buf = Vec::new();
    let c = ColorSpec::new();

    write_colored_character(&mut buf, &c, false);
    // expect to print nothing, just move cursor to the right
    assert_eq!(std::str::from_utf8(&buf).unwrap(), "\x1b[1C");
}

#[test]
fn test_write_colored_char_last_row_bg() {
    let mut buf = Vec::new();
    let mut c = ColorSpec::new();

    c.set_bg(Some(Color::Rgb(10, 20, 30)));

    write_colored_character(&mut buf, &c, true);
    assert_eq!(
        std::str::from_utf8(&buf).unwrap(),
        "\x1b[0m\x1b[38;2;10;20;30m▀"
    );
}

#[test]
fn test_write_colored_char_last_row_no_bg() {
    let mut buf = Vec::new();
    let mut c = ColorSpec::new();

    // test with no color
    write_colored_character(&mut buf, &c, true);
    assert_eq!(std::str::from_utf8(&buf).unwrap(), "\x1b[1C");

    c.set_fg(Some(Color::Rgb(10, 20, 30)));

    // test with fg (unusual case)
    let mut buf = Vec::new();
    write_colored_character(&mut buf, &c, true);
    assert_eq!(std::str::from_utf8(&buf).unwrap(), "\x1b[1C");
}

#[test]
fn test_block_printer_small() {
    let img = Image::new(20, 6);

    let config = Config {
        width: Some(40),
        height: None,
        absolute_offset: false,
        transparent: true,
        ..Default::default()
    };
    let mut vec = Vec::new();
    let (w, h) = BlockPrinter {}.print(&mut vec, &img, &config, TERM).unwrap();

    assert_eq!(w, 20);
    assert_eq!(h, 3);
}

#[test]
fn test_block_printer_large() {
    let img = Image::new(2000, 1000);

    let config = Config {
        width: Some(160),
        height: None,
        absolute_offset: false,
        transparent: true,
        ..Default::default()
    };
    let mut vec = Vec::new();
    let (w, h) = BlockPrinter {}.print(&mut vec, &img, &config, TERM).unwrap();

    assert_eq!(w, 160);
    assert_eq!(h, 40);
}

fn solid(w: u32, h: u32, p: [u8; 4]) -> Image {
    let mut img = Image::new(w, h);
    for y in 0..h {
        for x in 0..w {
            img.put_pixel(x, y, p);
        }
    }
    img
}

#[test]
fn solid_image_gives_one_line_per_cell_row() {
    let img = solid(3, 4, [1, 2, 3, 255]);
    let config = Config {
        absolute_offset: false,
        ..Default::default()
    };
    let mut buf = Vec::new();
    assert_eq!(print_to_writecolor(&mut buf, &img, &config).unwrap(), (3, 2));
    let cell = "\x1b[0m\x1b[38;2;1;2;3m\x1b[48;2;1;2;3m▄";
    let line = cell.repeat(3);
    let expected = format!("{line}\x1b[0m\r\n{line}\x1b[0m\n");
    assert_eq!(std::str::from_utf8(&buf).unwrap(), expected);
}

#[test]
fn horizontal_offset_is_repeated_on_every_row() {
    let img = solid(1, 4, [9, 9, 9, 255]);
    let config = Config {
        absolute_offset: false,
        x: 3,
        ..Default::default()
    };
    let mut buf = Vec::new();
    print_to_writecolor(&mut buf, &img, &config).unwrap();
    let text = std::str::from_utf8(&buf).unwrap();
    assert_eq!(text.matches("\x1b[3C").count(), 2);
    assert!(text.starts_with("\x1b[3C"));
}

#[test]
fn odd_height_last_row_has_no_background() {
    let img = Image::new(4, 3);
    let config = Config {
        truecolor: false,
        absolute_offset: false,
        ..Default::default()
    };
    let mut buf = Vec::new();
    print_to_writecolor(&mut buf, &img, &config).unwrap();
    let text = std::str::from_utf8(&buf).unwrap();
    let last = text.rsplit("\r\n").next().unwrap();
    assert_eq!(last.matches('▀').count(), 4);
    assert!(!last.contains("\x1b[48;"));
}

#[test]
fn negative_y_with_absolute_offset_writes_nothing() {
    let img = solid(2, 2, [1, 1, 1, 255]);
    let config = Config {
        y: -1,
        ..Default::default()
    };
    let mut buf = Vec::new();
    let r = BlockPrinter.print(&mut buf, &img, &config, TERM);
    assert!(matches!(r, Err(viuer::ViuError::InvalidConfiguration(_))));
    assert!(buf.is_empty());
}

#[test]
fn custom_glyph_for_two_colored_cells() {
    let mut buf = Vec::new();
    let mut c = ColorSpec::new();
    c.set_fg(Some(Color::Ansi256(7)));
    c.set_bg(Some(Color::Rgb(0, 100, 255)));
    viuer::write_custom_colored_character(&mut buf, &c, false, '▚');
    assert_eq!(
        std::str::from_utf8(&buf).unwrap(),
        "\x1b[0m\x1b[38;5;7m\x1b[48;2;0;100;255m▚"
    );
    // a single color still falls back to a half block
    let mut buf = Vec::new();
    c.set_bg(None);
    viuer::write_custom_colored_character(&mut buf, &c, false, '▚');
    assert_eq!(std::str::from_utf8(&buf).unwrap(), "\x1b[0m\x1b[38;5;7m▄");
}

#[test]
fn print_to_writecolor_refuses_negative_absolute_offset() {
    let img = Image::new(5, 4);
    let config = Config {
        y: -1,
        ..Default::default()
    };
    let mut buf = Vec::new();
    let r = print_to_writecolor(&mut buf, &img, &config);
    assert!(matches!(r, Err(viuer::ViuError::InvalidConfiguration(_))));
    assert!(buf.is_empty());
}
