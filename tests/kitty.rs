use viuer::{
    check_kitty_support, has_local_support, has_remote_support, kitty_probe_next, print_newline,
    wait_for_dsr, Config, Image, Key, KittyPrinter, KittyProbe, KittySupport, TestKeys, ViuError,
};

const TERM: (u16, u16) = (80, 24);

const TEMP_PATH: &str = "/tmp/.tty-graphics-protocol.viuer.a";

#[test]
fn test_print_remote() {
    let mut img = Image::new(1, 2);
    img.put_pixel(0, 1, [2, 4, 6, 8]);

    let config = Config {
        x: 2,
        y: 5,
        ..Default::default()
    };

    let mut vec = Vec::new();

    let test_data = vec![];
    let test_response = TestKeys::new(test_data);

    assert_eq!(
        KittyPrinter.print_remote(&mut vec, &img, &config, TERM).unwrap(),
        (1, 1)
    );
    let result = std::str::from_utf8(&vec).unwrap();

    assert_eq!(
        result,
        "\x1b[6;3H\x1b_Gf=32,a=T,t=d,s=1,v=2,c=1,r=1,m=1;AAAAAAIEBgg=\x1b\\"
    );
    assert!(test_response.reached_end());
}

#[test]
fn test_kitty_supported_remote_and_local() {
        // output collected on kitty 0.42.2

        // test kitty protocol support
        let mut stdout = Vec::new();

        let test_data = vec![
            Key::UnknownEscSeq(vec!['_']),
            Key::Char('G'),
            Key::Char('i'),
            Key::Char('='),
            Key::Char('3'),
            Key::Char('1'),
            Key::Char(';'),
            Key::Char('O'),
            Key::Char('K'),
            Key::UnknownEscSeq(vec!['\\']),
            Key::UnknownEscSeq(vec!['[', '?', '6']),
            Key::Char('2'),
            Key::Char(';'),
            Key::Char('5'),
            Key::Char('2'),
            Key::Char(';'),
            Key::Char('c'),
        ];
        let mut test_response = TestKeys::new(test_data);

        has_remote_support(&mut test_response, &mut stdout).unwrap();
        let result = std::str::from_utf8(&stdout).unwrap();

        assert_eq!(result, "\x1b_Gi=31,s=1,v=1,a=q,t=d,f=24;AAAA\x1b\\\x1b[c");
        assert!(test_response.reached_end());

        stdout.clear();

        // test kitty local protocol support
        let mut stdout = Vec::new();

        let test_data = vec![
            Key::UnknownEscSeq(vec!['_']),
            Key::Char('G'),
            Key::Char('i'),
            Key::Char('='),
            Key::Char('3'),
            Key::Char('1'),
            Key::Char(';'),
            Key::Char('O'),
            Key::Char('K'),
            Key::UnknownEscSeq(vec!['\\']),
        ];
        let mut test_response = TestKeys::new(test_data);

        has_local_support(&mut test_response, &mut stdout, TEMP_PATH).unwrap();
        let result = std::str::from_utf8(&stdout).unwrap();

        assert!(result.starts_with("\x1b_Gi=31,s=1,v=1,a=q,t=t;"));
        assert!(result.ends_with("\x1b\\"));
        assert!(test_response.reached_end());
    }

#[test]
fn test_remote_support_tmux() {
        // output collected on tmux 3.5_a (kitty & Konsole)

        // test kitty protocol support
        let mut stdout = Vec::new();

        let test_data = vec![
            Key::UnknownEscSeq(vec!['[', '?', '1']),
            Key::Char(';'),
            Key::Char('2'),
            Key::Char(';'),
            Key::Char('4'),
            Key::Char('c'),
        ];
        let mut test_response = TestKeys::new(test_data);

        has_remote_support(&mut test_response, &mut stdout).unwrap_err();
        let result = std::str::from_utf8(&stdout).unwrap();

        assert_eq!(result, "\x1b_Gi=31,s=1,v=1,a=q,t=d,f=24;AAAA\x1b\\\x1b[c");
        assert!(test_response.reached_end());
    }

#[test]
fn test_kitty_supported_but_not_local() {
        // output collected on konsole 25.08.1

        // test kitty protocol support
        let mut stdout = Vec::new();

        let test_data = vec![
            Key::UnknownEscSeq(vec!['_']),
            Key::Char('G'),
            Key::Char('i'),
            Key::Char('='),
            Key::Char('3'),
            Key::Char('1'),
            Key::Char(';'),
            Key::Char('O'),
            Key::Char('K'),
            Key::UnknownEscSeq(vec!['\\']),
            Key::UnknownEscSeq(vec!['[', '?', '6']),
            Key::Char('2'),
            Key::Char(';'),
            Key::Char('1'),
            Key::Char(';'),
            Key::Char('4'),
            Key::Char('c'),
        ];
        let mut test_response = TestKeys::new(test_data);

        has_remote_support(&mut test_response, &mut stdout).unwrap();
        let result = std::str::from_utf8(&stdout).unwrap();

        assert_eq!(result, "\x1b_Gi=31,s=1,v=1,a=q,t=d,f=24;AAAA\x1b\\\x1b[c");
        assert!(test_response.reached_end());

        stdout.clear();

        // test kitty local protocol support
        let mut stdout = Vec::new();

        let test_data = vec![
            Key::UnknownEscSeq(vec!['_']),
            Key::Char('G'),
            Key::Char('i'),
            Key::Char('='),
            Key::Char('3'),
            Key::Char('1'),
            Key::Char(';'),
            Key::Char('E'),
            Key::Char('N'),
            Key::Char('O'),
            Key::Char('T'),
            Key::Char('S'),
            Key::Char('U'),
            Key::Char('P'),
            Key::Char('P'),
            Key::Char('O'),
            Key::Char('R'),
            Key::Char('T'),
            Key::Char('E'),
            Key::Char('D'),
            Key::Char(':'),
            Key::UnknownEscSeq(vec!['\\']),
        ];
        let mut test_response = TestKeys::new(test_data);

        has_local_support(&mut test_response, &mut stdout, TEMP_PATH).unwrap_err();
        let result = std::str::from_utf8(&stdout).unwrap();

        assert!(result.starts_with("\x1b_Gi=31,s=1,v=1,a=q,t=t;"));
        assert!(result.ends_with("\x1b\\"));
        assert!(test_response.reached_end());
    }

#[test]
fn test_no_kitty_support() {
        let mut stdout = Vec::new();

        // only the "primary device attributes"
        let test_data = vec![Key::UnknownEscSeq(vec!['[', '?', '6']), Key::Char('c')];
        let mut test_response = TestKeys::new(test_data);

        has_remote_support(&mut test_response, &mut stdout).unwrap_err();
        let result = std::str::from_utf8(&stdout).unwrap();

        assert_eq!(result, "\x1b_Gi=31,s=1,v=1,a=q,t=d,f=24;AAAA\x1b\\\x1b[c");
        assert!(test_response.reached_end());
    }

fn ok_reply() -> Vec<Key> {
    vec![
        Key::UnknownEscSeq(vec!['_']),
        Key::Char('G'),
        Key::Char('i'),
        Key::Char('='),
        Key::Char('3'),
        Key::Char('1'),
        Key::Char(';'),
        Key::Char('O'),
        Key::Char('K'),
        Key::UnknownEscSeq(vec!['\\']),
    ]
}

#[test]
fn local_support_accepts_ok_and_reports_other_replies_whole() {
    let mut stdout = Vec::new();
    let mut keys = TestKeys::new(ok_reply());
    assert!(has_local_support(&mut keys, &mut stdout, TEMP_PATH).is_ok());
    assert!(keys.reached_end());

    let mut script = ok_reply();
    script[7] = Key::Char('N');
    script[8] = Key::Char('O');
    let mut keys = TestKeys::new(script.clone());
    match has_local_support(&mut keys, &mut Vec::new(), TEMP_PATH) {
        Err(ViuError::KittyResponse(response)) => assert_eq!(response, script),
        _ => panic!("expected the reply back"),
    }

    // a key that cannot be read ends the reply early
    let script = vec![Key::UnknownEscSeq(vec!['_']), Key::Unknown, Key::Char('x')];
    let mut keys = TestKeys::new(script);
    match has_local_support(&mut keys, &mut Vec::new(), TEMP_PATH) {
        Err(ViuError::KittyResponse(response)) => {
            assert_eq!(response, vec![Key::UnknownEscSeq(vec!['_']), Key::Unknown])
        }
        _ => panic!("expected the reply back"),
    }
    assert!(!keys.reached_end());
}

#[test]
fn local_query_carries_the_encoded_path() {
    let mut stdout = Vec::new();
    let mut keys = TestKeys::new(ok_reply());
    has_local_support(&mut keys, &mut stdout, "/tmp/a").unwrap();
    assert_eq!(std::str::from_utf8(&stdout).unwrap(), "\x1b_Gi=31,s=1,v=1,a=q,t=t;L3RtcC9h\x1b\\");
}

#[test]
fn status_report_wait() {
    let mut stdout = Vec::new();
    let mut keys = TestKeys::new(vec![Key::UnknownEscSeq(vec!['[', '0', 'n'])]);
    assert!(wait_for_dsr(&mut keys, &mut stdout).is_ok());
    assert_eq!(std::str::from_utf8(&stdout).unwrap(), "\x1b[5n");

    let mut keys = TestKeys::new(vec![Key::Char('x'), Key::UnknownEscSeq(vec!['[', '0', 'n'])]);
    assert!(wait_for_dsr(&mut keys, &mut Vec::new()).is_err());
}

#[test]
fn remote_print_splits_data_into_chunks() {
    // 4000 bytes of pixels encode to 5336 base64 characters: two chunks
    let img = Image::new(25, 40);
    let config = Config {
        absolute_offset: false,
        width: Some(10),
        height: Some(10),
        ..Default::default()
    };
    let mut out = Vec::new();
    assert_eq!(KittyPrinter.print_remote(&mut out, &img, &config, TERM).unwrap(), (10, 10));
    let text = std::str::from_utf8(&out).unwrap();
    assert!(text.starts_with("\x1b_Gf=32,a=T,t=d,s=25,v=40,c=10,r=10,m=1;"));
    assert_eq!(text.matches("\x1b_Gm=0;").count(), 1);
    assert_eq!(text.matches("\x1b_Gm=1;").count(), 0);
    let first = text.split("\x1b\\").next().unwrap();
    assert_eq!(first.len() - first.find(";").unwrap() - 1, 4096);
}

#[test]
fn local_print_names_the_file() {
    let img = Image::new(4, 4);
    let config = Config {
        x: 1,
        y: 2,
        ..Default::default()
    };
    let mut out = Vec::new();
    assert_eq!(KittyPrinter.print_local(&mut out, &img, &config, TERM, "/tmp/a").unwrap(), (4, 2));
    assert_eq!(
        std::str::from_utf8(&out).unwrap(),
        "\x1b[3;2H\x1b_Gf=32,s=4,v=4,c=4,r=2,a=T,t=t;L3RtcC9h\x1b\\\x1b[5n"
    );
}

#[test]
fn remote_print_with_invalid_offset_writes_nothing() {
    let img = Image::new(1, 1);
    let config = Config {
        y: -1,
        ..Default::default()
    };
    let mut out = Vec::new();
    assert!(matches!(
        KittyPrinter.print_remote(&mut out, &img, &config, TERM),
        Err(ViuError::InvalidConfiguration(_))
    ));
    assert!(out.is_empty());
}

#[test]
fn newline_only_before_the_right_edge() {
    let config = Config {
        x: 10,
        ..Default::default()
    };
    let mut out = Vec::new();
    print_newline(&mut out, &config, 69, 80);
    assert_eq!(out, b"\n");
    let mut out = Vec::new();
    print_newline(&mut out, &config, 70, 80);
    assert!(out.is_empty());
}

#[test]
fn kitty_probe_sends_file_query_only_after_inline_success() {
    // no graphics support: only the inline query goes out
    let mut stdout = Vec::new();
    let mut keys = TestKeys::new(vec![Key::UnknownEscSeq(vec!['[', '?', '6']), Key::Char('c')]);
    assert_eq!(check_kitty_support(&mut keys, &mut stdout, "/tmp/a"), KittySupport::Unsupported);
    assert_eq!(std::str::from_utf8(&stdout).unwrap(), "\x1b_Gi=31,s=1,v=1,a=q,t=d,f=24;AAAA\x1b\\\x1b[c");
    assert!(keys.reached_end());

    // inline accepted, file refused
    let mut script = ok_reply();
    script.push(Key::UnknownEscSeq(vec!['[', '?', '6']));
    script.push(Key::Char('c'));
    script.push(Key::UnknownEscSeq(vec!['_']));
    script.push(Key::Char('G'));
    script.push(Key::UnknownEscSeq(vec!['\\']));
    let mut stdout = Vec::new();
    let mut keys = TestKeys::new(script);
    assert_eq!(check_kitty_support(&mut keys, &mut stdout, "/tmp/a"), KittySupport::Remote);
    assert!(std::str::from_utf8(&stdout).unwrap().ends_with("t=t;L3RtcC9h\x1b\\"));
    assert!(keys.reached_end());

    // both accepted
    let mut script = ok_reply();
    script.push(Key::UnknownEscSeq(vec!['[', '?', '6']));
    script.push(Key::Char('c'));
    script.extend(ok_reply());
    let mut keys = TestKeys::new(script);
    assert_eq!(check_kitty_support(&mut keys, &mut Vec::new(), "/tmp/a"), KittySupport::Local);
}

#[test]
fn kitty_probe_steps() {
    assert_eq!(kitty_probe_next(KittyProbe::AskRemote, ok_reply()), KittyProbe::AskLocal);
    assert_eq!(
        kitty_probe_next(KittyProbe::AskRemote, vec![Key::Unknown]),
        KittyProbe::Done(KittySupport::Unsupported)
    );
    assert_eq!(
        kitty_probe_next(KittyProbe::AskLocal, ok_reply()),
        KittyProbe::Done(KittySupport::Local)
    );
    assert_eq!(
        kitty_probe_next(KittyProbe::AskLocal, vec![]),
        KittyProbe::Done(KittySupport::Remote)
    );
}
