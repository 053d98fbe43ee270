use wininet::wide_string::WideString;

#[test]
fn empty_string_is_just_terminator() {
    let w = WideString::from("");
    assert_eq!(w.units().as_slice(), &[0u16]);
}

#[test]
fn ascii_units_and_terminator() {
    let w = WideString::from("ab");
    assert_eq!(w.units().as_slice(), &[97u16, 98, 0]);
}

#[test]
fn bmp_character_is_one_unit() {
    let w = WideString::from("\u{20AC}");
    assert_eq!(w.units().as_slice(), &[0x20ACu16, 0]);
}

#[test]
fn supplementary_character_is_surrogate_pair() {
    let w = WideString::from("\u{1D11E}");
    assert_eq!(w.units().as_slice(), &[0xD834u16, 0xDD1E, 0]);
}

#[test]
fn exactly_one_trailing_zero() {
    for s in ["", "agent", "http://example.com/", "mixed \u{20AC} and \u{1D11E}"] {
        let w = WideString::from(s);
        let u = w.units();
        assert_eq!(u[u.len() - 1], 0);
        for i in 0..u.len() - 1 {
            assert_ne!(u[i], 0);
        }
    }
}

#[test]
fn prefix_round_trips_under_utf16() {
    for s in ["", "agent", "http://example.com/", "proxy:8080", "caf\u{E9} \u{1F600}\u{1D11E}"] {
        let w = WideString::from(s);
        let u = w.units();
        let decoded = String::from_utf16(&u[..u.len() - 1]).unwrap();
        assert_eq!(decoded, s);
    }
}
