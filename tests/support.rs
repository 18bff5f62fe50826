use viuer::{
    check_kitty_support, Key, TestKeys,
    choose_printer, choose_printer_step, colorterm_supports_truecolor, get_kitty_support, is_iterm_supported,
    is_sixel_supported, Config, KittySupport, PrinterStep, PrinterType, Protocol, SupportCell,
};

#[test]
fn a_capability_is_probed_once() {
    let mut cell = SupportCell::new();
    let mut probes = 0;
    for _ in 0..5 {
        let support = get_kitty_support(&mut cell, || {
            probes += 1;
            KittySupport::Remote
        });
        assert_eq!(support, KittySupport::Remote);
    }
    assert_eq!(probes, 1);
    assert_eq!(cell.probe_count(), 1);
}

#[test]
fn a_given_capability_is_never_probed() {
    let mut cell = SupportCell::with_value(true);
    assert!(is_iterm_supported(&mut cell, || panic!("no probe expected")));
    assert!(is_sixel_supported(&mut cell, || panic!("no probe expected")));
    assert_eq!(cell.probe_count(), 0);
    assert_eq!(cell.cached(), Some(true));
}

#[test]
fn printer_priority() {
    let all = Config::default();
    assert_eq!(choose_printer(&all, true, true, KittySupport::Local), PrinterType::Sixel);
    assert_eq!(choose_printer(&all, false, true, KittySupport::Local), PrinterType::iTerm);
    assert_eq!(choose_printer(&all, false, false, KittySupport::Remote), PrinterType::Kitty);
    assert_eq!(
        choose_printer(&all, false, false, KittySupport::Unsupported),
        PrinterType::Block
    );
    let no_sixel = Config {
        use_sixel: false,
        use_kitty: false,
        ..Default::default()
    };
    assert_eq!(choose_printer(&no_sixel, true, false, KittySupport::Local), PrinterType::Block);
}

#[test]
fn truecolor_from_colorterm() {
    assert!(colorterm_supports_truecolor("truecolor"));
    assert!(colorterm_supports_truecolor("24bit"));
    assert!(!colorterm_supports_truecolor(""));
    assert!(!colorterm_supports_truecolor("256color"));
}

#[test]
fn default_configuration() {
    let c = Config::default();
    assert!(c.resize && c.absolute_offset && c.truecolor && c.use_kitty && c.use_iterm);
    assert!(!c.transparent && !c.restore_cursor && !c.kitty_delete);
    assert_eq!((c.x, c.y, c.width, c.height), (0, 0, None, None));
}

#[test]
fn dispatcher_probes_in_priority_order() {
    let all = Config::default();
    assert_eq!(choose_printer_step(&all, None, None, None), PrinterStep::Probe(Protocol::Sixel));
    // a supported sixel terminal is never probed for iTerm or Kitty
    assert_eq!(
        choose_printer_step(&all, Some(true), None, None),
        PrinterStep::Use(PrinterType::Sixel)
    );
    assert_eq!(
        choose_printer_step(&all, Some(false), None, None),
        PrinterStep::Probe(Protocol::Iterm)
    );
    assert_eq!(
        choose_printer_step(&all, Some(false), Some(false), None),
        PrinterStep::Probe(Protocol::Kitty)
    );
    assert_eq!(
        choose_printer_step(&all, Some(false), Some(false), Some(KittySupport::Unsupported)),
        PrinterStep::Use(PrinterType::Block)
    );
    let kitty_only = Config {
        use_sixel: false,
        use_iterm: false,
        ..Default::default()
    };
    assert_eq!(
        choose_printer_step(&kitty_only, None, None, None),
        PrinterStep::Probe(Protocol::Kitty)
    );
}

#[test]
fn repeated_support_queries_send_one_probe_transaction() {
    let mut sink: Vec<u8> = Vec::new();
    let mut keys = TestKeys::new(vec![Key::UnknownEscSeq(vec!['[', '?', '6']), Key::Char('c')]);
    let mut cell = SupportCell::new();
    let mut answers = Vec::new();
    for _ in 0..3 {
        answers.push(get_kitty_support(&mut cell, || {
            check_kitty_support(&mut keys, &mut sink, "/tmp/a")
        }));
    }
    assert_eq!(answers, vec![KittySupport::Unsupported; 3]);
    assert_eq!(
        std::str::from_utf8(&sink).unwrap(),
        "\x1b_Gi=31,s=1,v=1,a=q,t=d,f=24;AAAA\x1b\\\x1b[c"
    );
    assert!(keys.reached_end());
}
