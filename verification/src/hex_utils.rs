//! Lower-case hexadecimal encoding and decoding of byte strings.
//!
//! Capability tokens cross the wire as hex text; these functions carry the
//! full encoding contract, and `lemma_hex_round_trip` states that decoding
//! an encoded byte string always gives the original bytes back.

use vstd::prelude::*;

verus! {

/// The lower-case hex digit for a value below sixteen.
pub open spec fn hex_char_of(n: u8) -> char {
    if n == 0 {
        '0'
    } else if n == 1 {
        '1'
    } else if n == 2 {
        '2'
    } else if n == 3 {
        '3'
    } else if n == 4 {
        '4'
    } else if n == 5 {
        '5'
    } else if n == 6 {
        '6'
    } else if n == 7 {
        '7'
    } else if n == 8 {
        '8'
    } else if n == 9 {
        '9'
    } else if n == 10 {
        'a'
    } else if n == 11 {
        'b'
    } else if n == 12 {
        'c'
    } else if n == 13 {
        'd'
    } else if n == 14 {
        'e'
    } else {
        'f'
    }
}

/// Whether a character is a hex digit in either case.
pub open spec fn is_hex_digit(c: char) -> bool {
    match c {
        '0' | '1' | '2' | '3' | '4' | '5' | '6' | '7' | '8' | '9' => true,
        'a' | 'b' | 'c' | 'd' | 'e' | 'f' => true,
        'A' | 'B' | 'C' | 'D' | 'E' | 'F' => true,
        _ => false,
    }
}

/// The value of a hex digit; zero on anything else.
pub open spec fn hex_val_of(c: char) -> u8 {
    match c {
        '0' => 0,
        '1' => 1,
        '2' => 2,
        '3' => 3,
        '4' => 4,
        '5' => 5,
        '6' => 6,
        '7' => 7,
        '8' => 8,
        '9' => 9,
        'a' | 'A' => 10,
        'b' | 'B' => 11,
        'c' | 'C' => 12,
        'd' | 'D' => 13,
        'e' | 'E' => 14,
        'f' | 'F' => 15,
        _ => 0,
    }
}

/// The lower-case hex text of a byte string: two digits per byte.
pub open spec fn hex_of(bytes: Seq<u8>) -> Seq<char> {
    Seq::new(
        bytes.len() * 2,
        |i: int|
            if i % 2 == 0 {
                hex_char_of((bytes[i / 2] / 16) as u8)
            } else {
                hex_char_of((bytes[i / 2] % 16) as u8)
            },
    )
}

/// The byte string a hex text stands for: defined exactly when the length is
/// even and every character is a hex digit.
pub open spec fn parsed_hex(s: Seq<char>) -> Option<Seq<u8>> {
    if s.len() % 2 == 0 && (forall|i: int| 0 <= i < s.len() ==> is_hex_digit(#[trigger] s[i])) {
        Some(
            Seq::new(
                (s.len() / 2) as nat,
                |k: int| (hex_val_of(s[2 * k]) * 16 + hex_val_of(s[2 * k + 1])) as u8,
            ),
        )
    } else {
        None
    }
}

fn append_hex_char(s: &mut String, n: u8)
    requires
        n < 16,
    ensures
        final(s)@ == old(s)@ + seq![hex_char_of(n)],
{
    proof {
        reveal_strlit("0");
        reveal_strlit("1");
        reveal_strlit("2");
        reveal_strlit("3");
        reveal_strlit("4");
        reveal_strlit("5");
        reveal_strlit("6");
        reveal_strlit("7");
        reveal_strlit("8");
        reveal_strlit("9");
        reveal_strlit("a");
        reveal_strlit("b");
        reveal_strlit("c");
        reveal_strlit("d");
        reveal_strlit("e");
        reveal_strlit("f");
    }
    let lit: &str = if n == 0 {
        "0"
    } else if n == 1 {
        "1"
    } else if n == 2 {
        "2"
    } else if n == 3 {
        "3"
    } else if n == 4 {
        "4"
    } else if n == 5 {
        "5"
    } else if n == 6 {
        "6"
    } else if n == 7 {
        "7"
    } else if n == 8 {
        "8"
    } else if n == 9 {
        "9"
    } else if n == 10 {
        "a"
    } else if n == 11 {
        "b"
    } else if n == 12 {
        "c"
    } else if n == 13 {
        "d"
    } else if n == 14 {
        "e"
    } else {
        "f"
    };
    assert(lit@ =~= seq![hex_char_of(n)]);
    s.append(lit);
}

/// Encode a byte string as lower-case hex text.
pub fn hex_str(bytes: &[u8]) -> (r: String)
    ensures
        r@ == hex_of(bytes@),
{
    let mut r = String::new();
    let mut i: usize = 0;
    while i < bytes.len()
        invariant
            i <= bytes@.len(),
            r@ == hex_of(bytes@).subrange(0, 2 * (i as int)),
        decreases bytes@.len() - i,
    {
        let b = bytes[i];
        append_hex_char(&mut r, b / 16);
        append_hex_char(&mut r, b % 16);
        proof {
            assert(r@ =~= hex_of(bytes@).subrange(0, 2 * (i as int) + 2));
        }
        i = i + 1;
    }
    proof {
        assert(r@ =~= hex_of(bytes@));
    }
    r
}

fn hex_val(c: char) -> (r: Option<u8>)
    ensures
        r is Some <==> is_hex_digit(c),
        r matches Some(v) ==> v == hex_val_of(c) && v < 16,
{
    if c == '0' {
        Some(0)
    } else if c == '1' {
        Some(1)
    } else if c == '2' {
        Some(2)
    } else if c == '3' {
        Some(3)
    } else if c == '4' {
        Some(4)
    } else if c == '5' {
        Some(5)
    } else if c == '6' {
        Some(6)
    } else if c == '7' {
        Some(7)
    } else if c == '8' {
        Some(8)
    } else if c == '9' {
        Some(9)
    } else if c == 'a' || c == 'A' {
        Some(10)
    } else if c == 'b' || c == 'B' {
        Some(11)
    } else if c == 'c' || c == 'C' {
        Some(12)
    } else if c == 'd' || c == 'D' {
        Some(13)
    } else if c == 'e' || c == 'E' {
        Some(14)
    } else if c == 'f' || c == 'F' {
        Some(15)
    } else {
        None
    }
}

/// Decode hex text to the byte string it stands for; `None` when the length
/// is odd or a character is no hex digit.
pub fn to_vec(s: &str) -> (r: Option<Vec<u8>>)
    ensures
        r is Some <==> parsed_hex(s@) is Some,
        r matches Some(v) ==> parsed_hex(s@) == Some(v@),
{
    let len = s.unicode_len();
    if len % 2 != 0 {
        return None;
    }
    let mut v: Vec<u8> = Vec::new();
    let mut i: usize = 0;
    while i < len
        invariant
            len == s@.len(),
            len % 2 == 0,
            i % 2 == 0,
            i <= len,
            forall|j: int| 0 <= j < i ==> is_hex_digit(#[trigger] s@[j]),
            v@.len() == i / 2,
            forall|k: int|
                0 <= k < v@.len() ==> v@[k] == (hex_val_of(s@[2 * k]) * 16 + hex_val_of(
                    s@[2 * k + 1],
                )) as u8,
        decreases len - i,
    {
        let c_hi = s.get_char(i);
        let c_lo = s.get_char(i + 1);
        let hi = hex_val(c_hi);
        let lo = hex_val(c_lo);
        if hi.is_none() || lo.is_none() {
            return None;
        }
        let b: u8 = hi.unwrap() * 16 + lo.unwrap();
        v.push(b);
        i = i + 2;
    }
    proof {
        let parsed = parsed_hex(s@);
        assert(parsed is Some);
        assert(v@ =~= parsed.unwrap());
    }
    Some(v)
}

proof fn lemma_hex_char_val(n: u8)
    requires
        n < 16,
    ensures
        is_hex_digit(hex_char_of(n)),
        hex_val_of(hex_char_of(n)) == n,
{
}

/// Decoding the hex encoding of any byte string gives the bytes back.
pub proof fn lemma_hex_round_trip(bytes: Seq<u8>)
    ensures
        parsed_hex(hex_of(bytes)) == Some(bytes),
{
    let h = hex_of(bytes);
    assert forall|i: int| 0 <= i < h.len() implies is_hex_digit(#[trigger] h[i]) by {
        if i % 2 == 0 {
            lemma_hex_char_val((bytes[i / 2] / 16) as u8);
        } else {
            lemma_hex_char_val((bytes[i / 2] % 16) as u8);
        }
    }
    let parsed = parsed_hex(h);
    assert(parsed is Some);
    assert forall|k: int| 0 <= k < bytes.len() implies parsed.unwrap()[k] == bytes[k] by {
        lemma_hex_char_val((bytes[k] / 16) as u8);
        lemma_hex_char_val((bytes[k] % 16) as u8);
        assert(h[2 * k] == hex_char_of((bytes[k] / 16) as u8));
        assert(h[2 * k + 1] == hex_char_of((bytes[k] % 16) as u8));
        assert(bytes[k] == (bytes[k] / 16) * 16 + bytes[k] % 16);
    }
    assert(parsed.unwrap() =~= bytes);
}

} // verus!
