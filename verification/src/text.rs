use vstd::prelude::*;
use vstd::string::*;
use vstd::utf8::*;

verus! {

/// The text that `std::str::from_utf8` gives, through its error's `Display`,
/// for bytes that are not valid UTF-8.
pub uninterp spec fn utf8_error_text(bytes: Seq<u8>) -> Seq<char>;

/// Calls `std::str::from_utf8` and renders its error with `Display`.
///
/// Trusted: the call succeeds exactly on the byte sequences that are valid
/// UTF-8 (vstd's `valid_utf8`), the `str` it gives back holds exactly those
/// bytes, and on failure the rendered text is `utf8_error_text` of the bytes
/// (what that text says is left unstated).
#[verifier::external_body]
pub(crate) fn str_from_utf8<'a>(bytes: &'a [u8]) -> (r: Result<&'a str, String>)
    ensures
        r is Ok <==> valid_utf8(bytes@),
        r matches Ok(s) ==> s.spec_bytes() == bytes@,
        r matches Err(m) ==> m@ == utf8_error_text(bytes@),
{
    match std::str::from_utf8(bytes) {
        Ok(s) => Ok(s),
        Err(e) => Err(format!("{e}")),
    }
}

/// The lower-case hexadecimal digit of a number below sixteen.
pub open spec fn hex_digit(n: int) -> char {
    if n < 10 {
        (48 + n) as char
    } else {
        (87 + n) as char
    }
}

/// Two lower-case hexadecimal digits per byte, most significant digit first.
pub open spec fn hex_text(bytes: Seq<u8>) -> Seq<char>
    decreases bytes.len(),
{
    if bytes.len() == 0 {
        seq![]
    } else {
        hex_text(bytes.drop_last()) + seq![
            hex_digit(bytes.last() as int / 16),
            hex_digit(bytes.last() as int % 16),
        ]
    }
}

/// The hyphenated lower-case text of a UUID: groups of 4, 2, 2, 2 and 6
/// bytes in hexadecimal, joined by hyphens.
pub open spec fn uuid_text(bytes: Seq<u8>) -> Seq<char> {
    hex_text(bytes.subrange(0, 4)) + seq!['-'] + hex_text(bytes.subrange(4, 6)) + seq!['-']
        + hex_text(bytes.subrange(6, 8)) + seq!['-'] + hex_text(bytes.subrange(8, 10))
        + seq!['-'] + hex_text(bytes.subrange(10, 16))
}

/// The bytes of text made of ASCII characters only.
pub open spec fn ascii_bytes(chars: Seq<char>) -> Seq<u8> {
    chars.map_values(|c: char| c as u8)
}

fn hex_byte(n: u8) -> (b: u8)
    requires
        n < 16,
    ensures
        b == hex_digit(n as int) as u8,
        '\0' <= hex_digit(n as int) <= '\u{7f}',
{
    if n < 10 {
        48 + n
    } else {
        87 + n
    }
}


/// The hexadecimal text of bytes has two characters per byte, each an ASCII
/// character.
pub proof fn lemma_hex_text_ascii(bytes: Seq<u8>)
    ensures
        is_ascii_chars(hex_text(bytes)),
        hex_text(bytes).len() == 2 * bytes.len(),
    decreases bytes.len(),
{
    if bytes.len() > 0 {
        lemma_hex_text_ascii(bytes.drop_last());
        let l = bytes.last() as int;
        assert('\0' <= hex_digit(l / 16) <= '\u{7f}');
        assert('\0' <= hex_digit(l % 16) <= '\u{7f}');
        assert(is_ascii_chars(hex_text(bytes)));
    }
}

/// Appends the hexadecimal text of `bytes[from..to]` to `out`.
fn push_hex(out: &mut Vec<u8>, bytes: &[u8; 16], from: usize, to: usize)
    requires
        from <= to <= 16,
    ensures
        final(out)@ == old(out)@ + ascii_bytes(hex_text(bytes@.subrange(from as int, to as int))),
{
    let ghost start = out@;
    let mut i = from;
    assert(bytes@.subrange(from as int, from as int) =~= Seq::<u8>::empty());
    assert(ascii_bytes(hex_text(Seq::<u8>::empty())) =~= Seq::<u8>::empty());
    assert(out@ =~= start + ascii_bytes(hex_text(bytes@.subrange(from as int, i as int))));
    while i < to
        invariant
            from <= i <= to <= 16,
            out@ == start + ascii_bytes(hex_text(bytes@.subrange(from as int, i as int))),
        decreases to - i,
    {
        let x = bytes[i];
        let hi = hex_byte(x / 16);
        let lo = hex_byte(x % 16);
        out.push(hi);
        out.push(lo);
        let ghost prev = bytes@.subrange(from as int, i as int);
        let ghost next = bytes@.subrange(from as int, i + 1);
        assert(next.drop_last() =~= prev);
        assert(next.last() == x);
        assert(hex_text(next) == hex_text(prev) + seq![
            hex_digit(x as int / 16),
            hex_digit(x as int % 16),
        ]);
        assert(ascii_bytes(hex_text(next)) =~= ascii_bytes(hex_text(prev)) + seq![hi, lo]);
        i = i + 1;
    }
}

/// The hyphenated lower-case text of a UUID given by its sixteen bytes
/// (the text `uuid::Uuid` displays).
pub fn uuid_to_string(bytes: &[u8; 16]) -> (s: String)
    ensures
        s@ == uuid_text(bytes@),
{
    let mut out: Vec<u8> = Vec::new();
    push_hex(&mut out, bytes, 0, 4);
    out.push(45u8);
    push_hex(&mut out, bytes, 4, 6);
    out.push(45u8);
    push_hex(&mut out, bytes, 6, 8);
    out.push(45u8);
    push_hex(&mut out, bytes, 8, 10);
    out.push(45u8);
    push_hex(&mut out, bytes, 10, 16);
    let ghost text = uuid_text(bytes@);
    proof {
        lemma_hex_text_ascii(bytes@.subrange(0, 4));
        lemma_hex_text_ascii(bytes@.subrange(4, 6));
        lemma_hex_text_ascii(bytes@.subrange(6, 8));
        lemma_hex_text_ascii(bytes@.subrange(8, 10));
        lemma_hex_text_ascii(bytes@.subrange(10, 16));
        assert(ascii_bytes(text) =~= out@);
        assert(is_ascii_chars(text));
        is_ascii_chars_encode_utf8(text);
        assert(encode_utf8(text) =~= out@);
        encode_utf8_valid_utf8(text);
        encode_utf8_decode_utf8(text);
    }
    match str_from_utf8(out.as_slice()) {
        Ok(s) => {
            proof {
                encode_utf8_decode_utf8(s@);
            }
            s.to_owned()
        },
        Err(_) => {
            proof {
                assert(false);
            }
            String::new()
        },
    }
}

} // verus!
