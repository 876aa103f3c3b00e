use zotty::levels::rank_card::Colour as RgbColour;
use zotty::ranks::colour::{format_descriminator, pad_descriminator, Colour};

#[test]
fn alpha_hex_reads_four_channels() {
    let c = Colour::from_alpha_hex(0x2E3440EE);
    assert_eq!((c.red(), c.green(), c.blue(), c.alpha()), (0x2E, 0x34, 0x40, 0xEE));
    let c = Colour::from_alpha_hex(0x2E3440FA);
    assert_eq!((c.red(), c.green(), c.blue(), c.alpha()), (46, 52, 64, 250));
}

#[test]
fn hex_reads_an_opaque_colour() {
    let c = Colour::from_hex(0x88C0D0);
    assert_eq!((c.red(), c.green(), c.blue(), c.alpha()), (136, 192, 208, 255));
    let c = Colour::from_hex(0);
    assert_eq!((c.red(), c.green(), c.blue(), c.alpha()), (0, 0, 0, 255));
}

#[test]
fn hex_ignores_high_bits_and_reads_negative_values_bitwise() {
    let c = Colour::from_hex(-1);
    assert_eq!((c.red(), c.green(), c.blue(), c.alpha()), (255, 255, 255, 255));
    let c = Colour::from_hex(0x7F_12_34_56);
    assert_eq!((c.red(), c.green(), c.blue()), (0x12, 0x34, 0x56));
}

#[test]
fn alpha_hex_channels_put_back_give_the_value() {
    for hex in [0u32, 1, 0x2E3440EE, 0xFFFFFFFF, 0x80000000, 0x12345678] {
        let c = Colour::from_alpha_hex(hex);
        let back = (c.red() as u32) << 24 | (c.green() as u32) << 16 | (c.blue() as u32) << 8 | c.alpha() as u32;
        assert_eq!(back, hex);
    }
}

#[test]
fn hex_is_the_opaque_alpha_hex() {
    for hex in [0x2E3440, 0xd8dee9, -1, 0x7FFFFFFF, i32::MIN] {
        let a = Colour::from_hex(hex);
        let b = Colour::from_alpha_hex(((hex as u32) << 8) | 0xFF);
        assert_eq!((a.red(), a.green(), a.blue(), a.alpha()), (b.red(), b.green(), b.blue(), b.alpha()));
    }
}

#[test]
fn first_card_colours_agree_with_rank_colours() {
    for hex in [0x2e3440, 0x8fbcbb, 0xd8dee9, 0xc2b59b, 0xedeff3, 0, 0xFFFFFF] {
        let a = RgbColour::from_hex(hex);
        let b = Colour::from_hex(hex);
        assert_eq!((a.red(), a.green(), a.blue()), (b.red(), b.green(), b.blue()));
    }
}

#[test]
fn discriminators_are_padded_to_four_digits() {
    assert_eq!(format_descriminator(0), "0000");
    assert_eq!(format_descriminator(7), "0007");
    assert_eq!(format_descriminator(42), "0042");
    assert_eq!(format_descriminator(123), "0123");
    assert_eq!(format_descriminator(1234), "1234");
    assert_eq!(format_descriminator(9999), "9999");
    assert_eq!(format_descriminator(65535), "65535");
    assert_eq!(zotty::zotty::image_utils::format_descriminator(5), "0005");
}

#[test]
fn padded_discriminators_denote_the_discriminator() {
    for d in [0u16, 9, 10, 99, 100, 999, 1000, 9999, 10000, 65535] {
        let s = format_descriminator(d);
        assert!(s.len() >= 4);
        assert_eq!(s.parse::<u16>().unwrap(), d);
    }
}

#[test]
fn discriminator_texts_are_padded_by_bytes() {
    assert_eq!(pad_descriminator("ab"), "00ab");
    assert_eq!(pad_descriminator("7"), "0007");
    assert_eq!(pad_descriminator(""), "");
    assert_eq!(pad_descriminator("1234"), "1234");
    assert_eq!(pad_descriminator("12345"), "12345");
    assert_eq!(pad_descriminator("é"), "00é");
    assert_eq!(pad_descriminator("€"), "0€");
    assert_eq!(pad_descriminator("ü1"), "0ü1");
    assert_eq!(pad_descriminator("ü12"), "ü12");
    assert_eq!(zotty::zotty::image_utils::pad_descriminator("x"), "000x");
}

#[test]
fn padding_a_padded_discriminator_changes_nothing() {
    for text in ["", "a", "ab", "abc", "abcd", "é", "€", "😀", "12", "0042"] {
        let once = pad_descriminator(text);
        assert_eq!(pad_descriminator(&once), once);
    }
    for d in [0u16, 5, 42, 999, 1234, 65535] {
        let s = format_descriminator(d);
        assert_eq!(pad_descriminator(&s), s);
        assert_eq!(pad_descriminator(&d.to_string()), s);
    }
}
