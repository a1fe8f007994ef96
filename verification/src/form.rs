//! The `application/x-www-form-urlencoded` text of a list of name/value pairs.

use vstd::prelude::*;
use vstd::utf8::{encode_utf8, is_ascii_chars, is_ascii_chars_encode_utf8};
use crate::fields::Pairs;

verus! {

/// A form serializer of the `url` crate that was started on an empty string.
#[verifier::external_body]
pub struct FormSerializer {
    inner: url::form_urlencoded::Serializer<'static, String>,
}

/// The text that a serializer has written so far.
pub uninterp spec fn form_text(ser: FormSerializer) -> Seq<char>;

/// Whether a byte is written as it is: the letters and digits of ASCII, and
/// `*`, `-`, `.` and `_`.
pub open spec fn is_kept(b: u8) -> bool {
    ||| b == 42
    ||| b == 45
    ||| b == 46
    ||| b == 95
    ||| 48 <= b <= 57
    ||| 65 <= b <= 90
    ||| 97 <= b <= 122
}

/// The hexadecimal digit for `d`, in upper case, where `d < 16`.
pub open spec fn hex_digit(d: int) -> char {
    if d == 0 {
        '0'
    } else if d == 1 {
        '1'
    } else if d == 2 {
        '2'
    } else if d == 3 {
        '3'
    } else if d == 4 {
        '4'
    } else if d == 5 {
        '5'
    } else if d == 6 {
        '6'
    } else if d == 7 {
        '7'
    } else if d == 8 {
        '8'
    } else if d == 9 {
        '9'
    } else if d == 10 {
        'A'
    } else if d == 11 {
        'B'
    } else if d == 12 {
        'C'
    } else if d == 13 {
        'D'
    } else if d == 14 {
        'E'
    } else {
        'F'
    }
}

/// One byte as form-urlencoded text: a kept byte as it is, the space as a
/// plus sign, any other as a percent sign and its two hexadecimal digits.
pub open spec fn encoded_byte(b: u8) -> Seq<char> {
    if is_kept(b) {
        seq![b as char]
    } else if b == 32 {
        seq!['+']
    } else {
        seq!['%', hex_digit(b as int / 16), hex_digit(b as int % 16)]
    }
}

/// Bytes as form-urlencoded text, one after the other.
pub open spec fn encoded_bytes(bytes: Seq<u8>) -> Seq<char>
    decreases bytes.len(),
{
    if bytes.len() == 0 {
        Seq::empty()
    } else {
        encoded_bytes(bytes.drop_last()) + encoded_byte(bytes.last())
    }
}

/// The form-urlencoded text of `s`: that of the bytes of its UTF-8 text.
#[verifier::opaque]
pub open spec fn urlencoded(s: Seq<char>) -> Seq<char> {
    encoded_bytes(encode_utf8(s))
}

/// `text` after one more pair: an ampersand unless `text` is empty, the
/// encoded name, an equals sign, the encoded value.
pub open spec fn with_pair(text: Seq<char>, name: Seq<char>, value: Seq<char>) -> Seq<char> {
    text + (if text.len() > 0 {
        "&"@
    } else {
        Seq::empty()
    }) + urlencoded(name) + "="@ + urlencoded(value)
}

/// The form-urlencoded text of `pairs`, in order.
pub open spec fn form_body(pairs: Pairs) -> Seq<char>
    decreases pairs.len(),
{
    if pairs.len() == 0 {
        Seq::empty()
    } else {
        with_pair(form_body(pairs.drop_last()), pairs.last().0, pairs.last().1)
    }
}

/// Calls `Serializer::new` of `url::form_urlencoded` on an empty `String`.
///
/// Claimed of it: nothing is written yet.
#[verifier::external_body]
pub(crate) fn form_new() -> (ser: FormSerializer)
    ensures
        form_text(ser) == Seq::<char>::empty(),
{
    FormSerializer { inner: url::form_urlencoded::Serializer::new(String::new()) }
}

/// Calls `Serializer::append_pair` of `url::form_urlencoded`.
///
/// Claimed of it: the text grows by a separating ampersand if it was not
/// empty, then the encoded name, an equals sign and the encoded value. Name
/// and value are encoded byte by byte: letters, digits and `*-._` stand as
/// they are, a space becomes `+`, any other byte `%` and two hexadecimal
/// digits in upper case. The serializer must not be finished, which none that
/// this library hands out is.
#[verifier::external_body]
pub(crate) fn form_append_pair(ser: &mut FormSerializer, name: &str, value: &str)
    ensures
        form_text(*final(ser)) == form_text(*old(ser)) + (if form_text(*old(ser)).len() > 0 {
            "&"@
        } else {
            Seq::empty()
        }) + urlencoded(name@) + "="@ + urlencoded(value@),
{
    ser.inner.append_pair(name, value);
}

/// Calls `Serializer::finish` of `url::form_urlencoded`.
///
/// Claimed of it: it hands out the text written so far. The serializer is
/// consumed, so that it is finished once.
#[verifier::external_body]
pub(crate) fn form_finish(ser: FormSerializer) -> (text: String)
    ensures
        text@ == form_text(ser),
{
    let mut ser = ser;
    ser.inner.finish()
}

/// The text of one more pair is that of the pairs before, and the pair.
pub proof fn lemma_form_body_push(pairs: Pairs, name: Seq<char>, value: Seq<char>)
    ensures
        form_body(pairs.push((name, value))) == with_pair(form_body(pairs), name, value),
{
    assert(pairs.push((name, value)).drop_last() =~= pairs);
}

/// How often `c` occurs in `text`.
pub open spec fn count(text: Seq<char>, c: char) -> nat
    decreases text.len(),
{
    if text.len() == 0 {
        0
    } else {
        count(text.drop_last(), c) + if text.last() == c {
            1nat
        } else {
            0nat
        }
    }
}

/// What occurs in two texts put together occurs in the one or in the other.
pub proof fn lemma_count_concat(a: Seq<char>, b: Seq<char>, c: char)
    ensures
        count(a + b, c) == count(a, c) + count(b, c),
    decreases b.len(),
{
    if b.len() == 0 {
        assert(a + b =~= a);
    } else {
        assert((a + b).drop_last() =~= a + b.drop_last());
        lemma_count_concat(a, b.drop_last(), c);
    }
}

/// Encoded bytes hold neither an ampersand nor an equals sign.
pub proof fn lemma_encoded_bytes_hold_no_separator(bytes: Seq<u8>)
    ensures
        count(encoded_bytes(bytes), '&') == 0,
        count(encoded_bytes(bytes), '=') == 0,
    decreases bytes.len(),
{
    if bytes.len() > 0 {
        let b = bytes.last();
        lemma_encoded_bytes_hold_no_separator(bytes.drop_last());
        lemma_count_concat(encoded_bytes(bytes.drop_last()), encoded_byte(b), '&');
        lemma_count_concat(encoded_bytes(bytes.drop_last()), encoded_byte(b), '=');
        let e = encoded_byte(b);
        reveal_with_fuel(count, 4);
        if is_kept(b) {
            assert(e.drop_last() =~= Seq::<char>::empty());
        } else if b == 32 {
            assert(e.drop_last() =~= Seq::<char>::empty());
        } else {
            assert(e.drop_last() =~= seq!['%', hex_digit(b as int / 16)]);
            assert(e.drop_last().drop_last() =~= seq!['%']);
            assert(e.drop_last().drop_last().drop_last() =~= Seq::<char>::empty());
        }
    }
}

/// In the body of a form, ampersands and equals signs are separators and
/// nothing else: there is one equals sign for each pair, and one ampersand
/// between each pair and the next.
pub proof fn lemma_separators_only(pairs: Pairs)
    ensures
        count(form_body(pairs), '=') == pairs.len(),
        pairs.len() > 0 ==> count(form_body(pairs), '&') == pairs.len() - 1,
        pairs.len() == 0 ==> form_body(pairs).len() == 0,
        pairs.len() > 0 ==> form_body(pairs).len() > 0,
    decreases pairs.len(),
{
    reveal_strlit("&");
    reveal_strlit("=");
    reveal(urlencoded);
    if pairs.len() > 0 {
        let before = form_body(pairs.drop_last());
        let name = urlencoded(pairs.last().0);
        let value = urlencoded(pairs.last().1);
        let amp = if before.len() > 0 {
            "&"@
        } else {
            Seq::<char>::empty()
        };
        lemma_separators_only(pairs.drop_last());
        lemma_encoded_bytes_hold_no_separator(encode_utf8(pairs.last().0));
        lemma_encoded_bytes_hold_no_separator(encode_utf8(pairs.last().1));
        reveal_with_fuel(count, 2);
        assert("&"@.drop_last() =~= Seq::<char>::empty());
        assert("="@.drop_last() =~= Seq::<char>::empty());
        assert(form_body(pairs) == before + amp + name + "="@ + value);
        lemma_count_concat(before, amp, '&');
        lemma_count_concat(before + amp, name, '&');
        lemma_count_concat(before + amp + name, "="@, '&');
        lemma_count_concat(before + amp + name + "="@, value, '&');
        lemma_count_concat(before, amp, '=');
        lemma_count_concat(before + amp, name, '=');
        lemma_count_concat(before + amp + name, "="@, '=');
        lemma_count_concat(before + amp + name + "="@, value, '=');
    }
}

/// Nothing encodes to nothing.
pub proof fn lemma_urlencoded_empty()
    ensures
        urlencoded(Seq::empty()) == Seq::<char>::empty(),
{
    reveal(urlencoded);
    assert(encode_utf8(Seq::empty()) =~= Seq::<u8>::empty());
}

/// ASCII text with one more character encodes to what the text encodes to,
/// and then the character.
pub proof fn lemma_urlencoded_push(s: Seq<char>, c: char)
    requires
        is_ascii_chars(s),
        c <= '\u{7f}',
    ensures
        is_ascii_chars(s.push(c)),
        urlencoded(s.push(c)) == urlencoded(s) + encoded_byte(c as u8),
{
    reveal(urlencoded);
    let longer = s.push(c);
    assert(is_ascii_chars(longer)) by {
        assert forall|i: int| 0 <= i < longer.len() implies '\0' <= #[trigger] longer[i]
            <= '\u{7f}' by {
            if i < s.len() {
                assert(longer[i] == s[i]);
            }
        }
    }
    is_ascii_chars_encode_utf8(s);
    is_ascii_chars_encode_utf8(longer);
    assert(encode_utf8(longer) =~= encode_utf8(s).push(c as u8)) by {
        assert forall|i: int| 0 <= i < s.len() implies encode_utf8(longer)[i] == encode_utf8(s)[i] by {
            assert(longer[i] == s[i]);
        }
        assert(longer[s.len() as int] == c);
    }
    assert(encode_utf8(longer).drop_last() =~= encode_utf8(s));
}

/// How some texts are encoded: brackets and braces are escaped, a space
/// becomes a plus sign, letters stay.
pub proof fn lemma_urlencoded_examples()
    ensures
        urlencoded("to[]"@) == "to%5B%5D"@,
        urlencoded("It works"@) == "It+works"@,
        urlencoded("{}"@) == "%7B%7D"@,
        urlencoded("a@b"@) == "a%40b"@,
        urlencoded(""@) == ""@,
{
    reveal_strlit("to[]");
    reveal_strlit("to%5B%5D");
    reveal_strlit("It works");
    reveal_strlit("It+works");
    reveal_strlit("{}");
    reveal_strlit("%7B%7D");
    reveal_strlit("a@b");
    reveal_strlit("a%40b");
    reveal_strlit("");
    let e = Seq::<char>::empty();
    lemma_urlencoded_empty();
    assert(""@ =~= e);

    lemma_urlencoded_push(e, 't');
    lemma_urlencoded_push(e.push('t'), 'o');
    lemma_urlencoded_push(e.push('t').push('o'), '[');
    lemma_urlencoded_push(e.push('t').push('o').push('['), ']');
    assert("to[]"@ =~= e.push('t').push('o').push('[').push(']'));
    assert(urlencoded("to[]"@) =~= "to%5B%5D"@);

    lemma_urlencoded_push(e, 'I');
    lemma_urlencoded_push(e.push('I'), 't');
    lemma_urlencoded_push(e.push('I').push('t'), ' ');
    lemma_urlencoded_push(e.push('I').push('t').push(' '), 'w');
    lemma_urlencoded_push(e.push('I').push('t').push(' ').push('w'), 'o');
    lemma_urlencoded_push(e.push('I').push('t').push(' ').push('w').push('o'), 'r');
    lemma_urlencoded_push(e.push('I').push('t').push(' ').push('w').push('o').push('r'), 'k');
    lemma_urlencoded_push(
        e.push('I').push('t').push(' ').push('w').push('o').push('r').push('k'),
        's',
    );
    assert("It works"@ =~= e.push('I').push('t').push(' ').push('w').push('o').push('r').push(
        'k',
    ).push('s'));
    assert(urlencoded("It works"@) =~= "It+works"@);

    lemma_urlencoded_push(e, '{');
    lemma_urlencoded_push(e.push('{'), '}');
    assert("{}"@ =~= e.push('{').push('}'));
    assert(urlencoded("{}"@) =~= "%7B%7D"@);

    lemma_urlencoded_push(e, 'a');
    lemma_urlencoded_push(e.push('a'), '@');
    lemma_urlencoded_push(e.push('a').push('@'), 'b');
    assert("a@b"@ =~= e.push('a').push('@').push('b'));
    assert(urlencoded("a@b"@) =~= "a%40b"@);
}

} // verus!
