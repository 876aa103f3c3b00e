//! Colours of the rank and leaderboard cards, and the four-digit form of a
//! user's discriminator.

use vstd::prelude::*;

use vstd::utf8::{char_is_scalar, encode_scalar, encode_utf8};

use crate::text::{all_digits, chars_to_string, digits_value, lemma_nat_digits, nat_digits, str_chars};

verus! {

/// An RGBA colour, eight bits per channel.
pub struct Colour {
    red: u8,
    green: u8,
    blue: u8,
    alpha: u8,
}

/// The channels of an `0xRRGGBBAA` value.
pub open spec fn rgba_of_alpha_hex(hex: u32) -> (u8, u8, u8, u8) {
    (
        (hex / 0x100_0000) as u8,
        ((hex / 0x1_0000) % 0x100) as u8,
        ((hex / 0x100) % 0x100) as u8,
        (hex % 0x100) as u8,
    )
}

/// The channels of an `0xRRGGBB` value, fully opaque; bits above the low 24
/// are ignored (for a negative `hex`, its two's-complement bits are read).
pub open spec fn rgba_of_hex(hex: i32) -> (u8, u8, u8, u8) {
    let bits = hex as u32;
    (
        ((bits / 0x1_0000) % 0x100) as u8,
        ((bits / 0x100) % 0x100) as u8,
        (bits % 0x100) as u8,
        255u8,
    )
}

/// The `0xRRGGBBAA` value of a colour.
pub open spec fn alpha_hex_of(c: (u8, u8, u8, u8)) -> int {
    c.0 * 0x100_0000 + c.1 * 0x1_0000 + c.2 * 0x100 + c.3
}

impl View for Colour {
    type V = (u8, u8, u8, u8);

    closed spec fn view(&self) -> (u8, u8, u8, u8) {
        (self.red, self.green, self.blue, self.alpha)
    }
}

impl Colour {
    /// Reads an `0xRRGGBBAA` value.
    pub fn from_alpha_hex(hex: u32) -> (c: Colour)
        ensures
            c@ == rgba_of_alpha_hex(hex),
    {
        let red = ((hex >> 24) & 255) as u8;
        let green = ((hex >> 16) & 255) as u8;
        let blue = ((hex >> 8) & 255) as u8;
        let alpha = (hex & 255) as u8;
        assert(((hex >> 24) & 255) == hex / 0x100_0000) by (bit_vector);
        assert(((hex >> 16) & 255) == (hex / 0x1_0000) % 0x100) by (bit_vector);
        assert(((hex >> 8) & 255) == (hex / 0x100) % 0x100) by (bit_vector);
        assert((hex & 255) == hex % 0x100) by (bit_vector);
        Colour { red, green, blue, alpha }
    }

    /// Reads an `0xRRGGBB` value as an opaque colour.
    pub fn from_hex(hex: i32) -> (c: Colour)
        ensures
            c@ == rgba_of_hex(hex),
    {
        let red = ((hex >> 16) & 255) as u8;
        let green = ((hex >> 8) & 255) as u8;
        let blue = (hex & 255) as u8;
        let bits = hex as u32;
        assert(0 <= ((hex >> 16) & 255) < 256 && 0 <= ((hex >> 8) & 255) < 256 && 0 <= (hex & 255)
            < 256) by (bit_vector);
        assert(((hex >> 16) & 255) as u32 == (bits / 0x1_0000) % 0x100) by (bit_vector)
            requires
                bits == hex as u32,
        ;
        assert(((hex >> 8) & 255) as u32 == (bits / 0x100) % 0x100) by (bit_vector)
            requires
                bits == hex as u32,
        ;
        assert((hex & 255) as u32 == bits % 0x100) by (bit_vector)
            requires
                bits == hex as u32,
        ;
        Colour { red, green, blue, alpha: 255 }
    }

    /// The red channel.
    pub fn red(&self) -> (r: u8)
        ensures
            r == self@.0,
    {
        self.red
    }

    /// The green channel.
    pub fn green(&self) -> (g: u8)
        ensures
            g == self@.1,
    {
        self.green
    }

    /// The blue channel.
    pub fn blue(&self) -> (b: u8)
        ensures
            b == self@.2,
    {
        self.blue
    }

    /// The alpha channel (255 is opaque).
    pub fn alpha(&self) -> (a: u8)
        ensures
            a == self@.3,
    {
        self.alpha
    }
}

/// Reading an `0xRRGGBBAA` value loses nothing: its channels put back
/// together give the value again.
pub proof fn lemma_alpha_hex_round_trip(hex: u32)
    ensures
        alpha_hex_of(rgba_of_alpha_hex(hex)) == hex,
{
    let c = rgba_of_alpha_hex(hex);
    assert(c.0 * 0x100_0000 + c.1 * 0x1_0000 + c.2 * 0x100 + c.3 == hex) by (nonlinear_arith)
        requires
            c.0 == hex / 0x100_0000,
            c.1 == (hex / 0x1_0000) % 0x100,
            c.2 == (hex / 0x100) % 0x100,
            c.3 == hex % 0x100,
    ;
}

/// An `0xRRGGBB` value reads as the `0xRRGGBBFF` value of the same colour:
/// `from_hex(h)` and `from_alpha_hex((h << 8) | 0xFF)` agree.
pub proof fn lemma_hex_is_opaque_alpha_hex(hex: i32)
    ensures
        rgba_of_hex(hex) == rgba_of_alpha_hex((((hex as u32) << 8u32) | 255u32) as u32),
{
    let bits = hex as u32;
    let x = ((bits << 8u32) | 255u32) as u32;
    assert(x / 0x100_0000 == (bits / 0x1_0000) % 0x100) by (bit_vector)
        requires
            x == ((bits << 8u32) | 255u32),
    ;
    assert((x / 0x1_0000) % 0x100 == (bits / 0x100) % 0x100) by (bit_vector)
        requires
            x == ((bits << 8u32) | 255u32),
    ;
    assert((x / 0x100) % 0x100 == bits % 0x100) by (bit_vector)
        requires
            x == ((bits << 8u32) | 255u32),
    ;
    assert(x % 0x100 == 255) by (bit_vector)
        requires
            x == ((bits << 8u32) | 255u32),
    ;
}

/// A discriminator's digits, padded with leading zeros to four characters.
pub open spec fn pad_discriminator(digits: Seq<char>) -> Seq<char> {
    if digits.len() == 1 {
        seq!['0', '0', '0'] + digits
    } else if digits.len() == 2 {
        seq!['0', '0'] + digits
    } else if digits.len() == 3 {
        seq!['0'] + digits
    } else {
        digits
    }
}

/// A discriminator's text padded with leading zeros to four bytes: a text
/// of one to three UTF-8 bytes gets `4 - len` zeros in front; any other text
/// (empty, or four bytes or more) is left as it is.
pub open spec fn pad_discriminator_text(text: Seq<char>) -> Seq<char> {
    let n = encode_utf8(text).len();
    if 1 <= n <= 3 {
        zeros((4 - n) as nat) + text
    } else {
        text
    }
}

/// The UTF-8 encoding of joined texts is the joined encodings.
pub proof fn lemma_encode_utf8_concat(a: Seq<char>, b: Seq<char>)
    ensures
        encode_utf8(a + b) == encode_utf8(a) + encode_utf8(b),
    decreases a.len(),
{
    if a.len() == 0 {
        assert(a + b =~= b);
        assert(encode_utf8(a) =~= Seq::<u8>::empty());
        assert(encode_utf8(a) + encode_utf8(b) =~= encode_utf8(b));
    } else {
        assert((a + b).drop_first() =~= a.drop_first() + b);
        assert((a + b)[0] == a[0]);
        lemma_encode_utf8_concat(a.drop_first(), b);
        assert(encode_utf8(a + b) =~= encode_utf8(a) + encode_utf8(b));
    }
}

/// The UTF-8 encoding of one character.
pub proof fn lemma_encode_utf8_single(c: char)
    ensures
        encode_utf8(seq![c]) == encode_scalar(c as u32),
{
    assert(seq![c].drop_first() =~= Seq::<char>::empty());
    assert(encode_scalar(c as u32) + encode_utf8(Seq::<char>::empty()) =~= encode_scalar(c as u32));
}

/// ASCII digits take one byte each.
pub proof fn lemma_encode_utf8_digits_len(d: Seq<char>)
    requires
        all_digits(d),
    ensures
        encode_utf8(d).len() == d.len(),
    decreases d.len(),
{
    if d.len() > 0 {
        assert(crate::text::is_digit(d[0]));
        assert(all_digits(d.drop_first())) by {
            assert forall|i: int| 0 <= i < d.drop_first().len() implies #[trigger] crate::text::is_digit(
                d.drop_first()[i],
            ) by {
                assert(d.drop_first()[i] == d[i + 1]);
            }
        }
        lemma_encode_utf8_digits_len(d.drop_first());
    }
}

/// Zeros take one byte each.
pub proof fn lemma_encode_utf8_zeros_len(n: nat)
    ensures
        encode_utf8(zeros(n)).len() == n,
{
    lemma_zeros(n);
    assert(all_digits(zeros(n))) by {
        assert forall|i: int| 0 <= i < zeros(n).len() implies #[trigger] crate::text::is_digit(zeros(n)[i]) by {
            assert(zeros(n)[i] == '0');
        }
    }
    lemma_encode_utf8_digits_len(zeros(n));
}

/// The number of bytes of `c` in UTF-8.
fn utf8_width(c: char) -> (w: usize)
    ensures
        w == encode_scalar(c as u32).len(),
{
    proof {
        char_is_scalar(c);
    }
    let v = c as u32;
    if v < 0x80 {
        1
    } else if v < 0x800 {
        2
    } else if v < 0x10000 {
        3
    } else {
        4
    }
}

/// Pads a discriminator's text with leading zeros to four bytes, as the
/// cards show it after the `#` (a text of one to three bytes gets zeros in
/// front; any other text is left as it is).
pub fn pad_descriminator(text: &str) -> (s: String)
    ensures
        s@ == pad_discriminator_text(text@),
{
    let v = str_chars(text);
    let mut bytes: usize = 0;
    let mut i: usize = 0;
    assert(v@.take(0) =~= Seq::<char>::empty());
    while i < v.len() && bytes < 4
        invariant
            i <= v.len(),
            bytes == encode_utf8(v@.take(i as int)).len(),
            bytes <= 7,
        decreases v.len() - i,
    {
        let w = utf8_width(v[i]);
        proof {
            assert(v@.take(i + 1) =~= v@.take(i as int) + seq![v@[i as int]]);
            lemma_encode_utf8_concat(v@.take(i as int), seq![v@[i as int]]);
            lemma_encode_utf8_single(v@[i as int]);
        }
        bytes = bytes + w;
        i = i + 1;
    }
    proof {
        assert(v@ =~= v@.take(i as int) + v@.skip(i as int));
        lemma_encode_utf8_concat(v@.take(i as int), v@.skip(i as int));
    }
    let mut out: Vec<char> = Vec::new();
    if 1 <= bytes && bytes <= 3 {
        let pad = 4 - bytes;
        let mut j: usize = 0;
        while j < pad
            invariant
                j <= pad,
                out@ == zeros(j as nat),
            decreases pad - j,
        {
            out.push('0');
            j = j + 1;
        }
    }
    let mut rest = v;
    out.append(&mut rest);
    assert(out@ =~= pad_discriminator_text(text@));
    chars_to_string(&out)
}

/// Padding a padded text changes nothing.
pub proof fn lemma_pad_discriminator_text_idempotent(text: Seq<char>)
    ensures
        pad_discriminator_text(pad_discriminator_text(text)) == pad_discriminator_text(text),
{
    let n = encode_utf8(text).len();
    if 1 <= n <= 3 {
        let k = (4 - n) as nat;
        lemma_encode_utf8_concat(zeros(k), text);
        lemma_encode_utf8_zeros_len(k);
    }
}

/// On a string of digits, padding to four bytes is padding to four digits.
pub proof fn lemma_pad_text_of_digits(d: Seq<char>)
    requires
        all_digits(d),
    ensures
        pad_discriminator_text(d) == pad_discriminator(d),
{
    lemma_encode_utf8_digits_len(d);
    lemma_zeros(1);
    lemma_zeros(2);
    lemma_zeros(3);
    assert(seq!['0'] + d =~= zeros(1) + d);
    assert(seq!['0', '0'] + d =~= zeros(2) + d);
    assert(seq!['0', '0', '0'] + d =~= zeros(3) + d);
}

/// The discriminator as Discord shows it after the `#`: its decimal digits,
/// padded with leading zeros to four.
pub fn format_descriminator(discriminator: u16) -> (s: String)
    ensures
        s@ == pad_discriminator(nat_digits(discriminator as nat)),
        s@ == pad_discriminator_text(nat_digits(discriminator as nat)),
{
    let digits = crate::text::u64_to_string(discriminator as u64);
    proof {
        lemma_nat_digits(discriminator as nat);
        lemma_pad_text_of_digits(nat_digits(discriminator as nat));
    }
    pad_descriminator(digits.as_str())
}

/// A formatted discriminator has at least four characters, exactly four when
/// the discriminator is below 10000, all of them digits, and it denotes the
/// discriminator.
pub proof fn lemma_discriminator_digits(discriminator: u16)
    ensures
        pad_discriminator(nat_digits(discriminator as nat)).len() >= 4,
        discriminator < 10000 ==> pad_discriminator(nat_digits(discriminator as nat)).len() == 4,
        all_digits(pad_discriminator(nat_digits(discriminator as nat))),
        digits_value(pad_discriminator(nat_digits(discriminator as nat))) == discriminator,
{
    let d = nat_digits(discriminator as nat);
    lemma_nat_digits(discriminator as nat);
    assert(discriminator < 100000);
    lemma_leading_zeros(d, 3);
    lemma_leading_zeros(d, 2);
    lemma_leading_zeros(d, 1);
    assert(seq!['0'] + d =~= zeros(1) + d);
    assert(seq!['0', '0'] + d =~= zeros(2) + d);
    assert(seq!['0', '0', '0'] + d =~= zeros(3) + d);
    assert(d.len() <= 5) by {
        if d.len() > 5 {
            lemma_five_digit_bound(discriminator);
        }
    }
}

/// `n` zeros.
pub open spec fn zeros(n: nat) -> Seq<char>
    decreases n,
{
    if n == 0 {
        seq![]
    } else {
        zeros((n - 1) as nat).push('0')
    }
}

/// Leading zeros change neither digit-ness nor the value.
pub proof fn lemma_leading_zeros(d: Seq<char>, n: nat)
    requires
        all_digits(d),
    ensures
        all_digits(zeros(n) + d),
        digits_value(zeros(n) + d) == digits_value(d),
        (zeros(n) + d).len() == n + d.len(),
    decreases d.len(), n,
{
    lemma_zeros(n);
    let s = zeros(n) + d;
    assert forall|i: int| 0 <= i < s.len() implies #[trigger] crate::text::is_digit(s[i]) by {
        if i < n {
            assert(s[i] == zeros(n)[i]);
        } else {
            assert(s[i] == d[i - n]);
        }
    }
    if d.len() > 0 {
        assert(s.drop_last() =~= zeros(n) + d.drop_last());
        assert(all_digits(d.drop_last())) by {
            assert forall|i: int| 0 <= i < d.drop_last().len() implies #[trigger] crate::text::is_digit(
                d.drop_last()[i],
            ) by {
                assert(d.drop_last()[i] == d[i]);
            }
        }
        lemma_leading_zeros(d.drop_last(), n);
    } else if n > 0 {
        assert(s =~= zeros(n));
        assert(zeros(n).drop_last() =~= zeros((n - 1) as nat));
        assert(zeros((n - 1) as nat) + d =~= zeros((n - 1) as nat));
        lemma_leading_zeros(d, (n - 1) as nat);
    } else {
        assert(s =~= d);
    }
}

/// `zeros(n)` is `n` zero characters.
pub proof fn lemma_zeros(n: nat)
    ensures
        zeros(n).len() == n,
        forall|i: int| 0 <= i < n ==> #[trigger] zeros(n)[i] == '0',
    decreases n,
{
    if n > 0 {
        lemma_zeros((n - 1) as nat);
        assert forall|i: int| 0 <= i < n implies #[trigger] zeros(n)[i] == '0' by {
            if i < n - 1 {
                assert(zeros(n)[i] == zeros((n - 1) as nat)[i]);
            }
        }
    }
}

/// A `u16` has at most five decimal digits.
proof fn lemma_five_digit_bound(x: u16)
    ensures
        nat_digits(x as nat).len() <= 5,
{
    let n = x as nat;
    assert(n / 10 < 10000);
    lemma_nat_digits(n / 10);
}

} // verus!
