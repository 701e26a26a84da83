use mediadecode_ffmpeg::text::{lossy_len, lossy_text};

#[test]
fn lossy_len_prices_exactly_what_lossy_text_builds() {
    let cases: [&[u8]; 9] = [
        b"",
        b"Opening",
        "héllo wörld".as_bytes(),
        b"\xff",
        b"\xff\xfe\xfd",
        b"before\xffafter",
        b"\xe2\x82",
        b"ok\xe2\x82",
        b"\xf0\x9f\x92\xa9ok",
    ];
    for raw in cases {
        let built = std::string::String::from_utf8_lossy(raw);
        assert_eq!(
            lossy_len(raw),
            built.len(),
            "{raw:?} must be priced at what from_utf8_lossy produces",
        );
        let text = lossy_text(raw, lossy_len(raw)).expect("a small reservation");
        assert_eq!(text.as_str(), built.as_ref(), "{raw:?} must decode identically");
    }
}

#[test]
fn an_invalid_byte_is_priced_as_a_three_byte_replacement() {
    assert_eq!(lossy_len(b"\xff"), 3);
    assert_eq!(lossy_text(b"\xff", 3).expect("reserved"), "\u{fffd}");
    assert_eq!(lossy_len(b"a\xffb"), 5);
}

#[test]
fn surrogates_and_overlong_forms_are_each_replaced_per_maximal_prefix() {
    let cases: [&[u8]; 7] = [
        b"\xed\xa0\x80",
        b"\xc0\xaf",
        b"\xe0\x80\xaf",
        b"\xf4\x90\x80\x80",
        b"\xf0\x9f\x92",
        b"\x80\x80",
        b"abc\xf0\x9f\x92\xa9\xe2\x82\xacxyz\xff",
    ];
    for raw in cases {
        let built = std::string::String::from_utf8_lossy(raw);
        assert_eq!(lossy_len(raw), built.len(), "{raw:?}");
        assert_eq!(lossy_text(raw, lossy_len(raw)).expect("reserved"), built.as_ref(), "{raw:?}");
    }
}

#[test]
fn every_byte_value_alone_decodes_as_std_does() {
    for b in 0u8..=255 {
        let raw = [b, b'x'];
        let built = std::string::String::from_utf8_lossy(&raw);
        assert_eq!(lossy_len(&raw), built.len(), "{b:#x}");
        assert_eq!(lossy_text(&raw, lossy_len(&raw)).expect("reserved"), built.as_ref(), "{b:#x}");
    }
}
