//! Properties that tie the library's functions together.
use vstd::prelude::*;
use vstd::utf8::encode_utf8;

use crate::i18n::{
    encode_path_byte, is_path_safe_byte, language_code, language_for_code, localized_text,
    percent_encoded, preferred_language, relative_time_text, Language,
};
use crate::create::{burn_after_choice, expiration_after};
use crate::language::{safe_redirect_bytes, switch_location};
use crate::pasta::{
    has_key, html_text_escaped, last_component, path_file_name, spaces_to_underscores, key_free, key_position, lemma_key_position, public_key_of,
    template_escaped, time_ago_text, Pasta,
};
use crate::text::{
    decimal, hex_digit_upper, is_white_space, lemma_split_on_nonempty, split_on, trim, trim_end,
    trim_start,
};

verus! {

/// The code of a language names that language again.
pub proof fn lemma_code_round_trip(language: Language)
    ensures
        language_for_code(language_code(language)) == Some(language),
{
    reveal_strlit("en");
    reveal_strlit("en-US");
    reveal_strlit("en-GB");
    reveal_strlit("zh-CN");
    assert("zh-CN"@[0] != "en"@[0]);
    assert("zh-CN"@[0] != "en-US"@[0]);
    assert("zh-CN"@[0] != "en-GB"@[0]);
}

/// A language cookie that names a language decides the interface language,
/// whatever the browser asks for.
pub proof fn lemma_cookie_wins(cookie: Seq<char>, header: Option<Seq<char>>, language: Language)
    requires
        language_for_code(cookie) == Some(language),
    ensures
        preferred_language(Some(cookie), header) == language,
{
}

/// Without a usable cookie or header the interface is in English.
pub proof fn lemma_english_by_default(cookie: Option<Seq<char>>, header: Option<Seq<char>>)
    requires
        cookie matches Some(c) ==> language_for_code(c) is None,
        header matches Some(h) ==> crate::i18n::accept_language_preference(h) is None,
    ensures
        preferred_language(cookie, header) == Language::English,
{
}

/// Anything less than two seconds old, or dated in the future, happened "just now".
pub proof fn lemma_recent_is_just_now(language: Language, elapsed: int)
    requires
        elapsed < 2,
    ensures
        relative_time_text(language, elapsed) == localized_text(language, "just_now"@),
{
}

/// A character that may appear in an encoded path: an ASCII letter or digit,
/// `-`, `_`, `.`, `~`, `/` or `%`. In particular no `?`, `&`, `=`, `#` or space.
pub open spec fn is_encoded_path_char(c: char) -> bool {
    ||| ('0' <= c && c <= '9')
    ||| ('A' <= c && c <= 'Z')
    ||| ('a' <= c && c <= 'z')
    ||| c == '-'
    ||| c == '_'
    ||| c == '.'
    ||| c == '~'
    ||| c == '/'
    ||| c == '%'
}

proof fn lemma_hex_digit_is_encoded_path_char(d: nat)
    ensures
        is_encoded_path_char(hex_digit_upper(d)),
{
}

/// An encoded path holds only letters, digits, `-`, `_`, `.`, `~`, `/` and `%`,
/// so it can stand as one query value.
pub proof fn lemma_percent_encoded_chars(bytes: Seq<u8>)
    ensures
        forall|i: int|
            0 <= i < percent_encoded(bytes).len() ==> is_encoded_path_char(
                #[trigger] percent_encoded(bytes)[i],
            ),
    decreases bytes.len(),
{
    if bytes.len() > 0 {
        lemma_percent_encoded_chars(bytes.drop_last());
        let b = bytes.last();
        lemma_hex_digit_is_encoded_path_char((b / 16) as nat);
        lemma_hex_digit_is_encoded_path_char((b % 16) as nat);
        let prefix = percent_encoded(bytes.drop_last());
        let last = encode_path_byte(b);
        assert(forall|i: int| 0 <= i < last.len() ==> is_encoded_path_char(#[trigger] last[i]));
        assert forall|i: int| 0 <= i < percent_encoded(bytes).len() implies is_encoded_path_char(
            #[trigger] percent_encoded(bytes)[i],
        ) by {
            if i < prefix.len() {
                assert(percent_encoded(bytes)[i] == prefix[i]);
            } else {
                assert(percent_encoded(bytes)[i] == last[i - prefix.len()]);
            }
        }
    }
}

/// A language switch only ever sends the visitor to a safe path on this site.
pub proof fn lemma_switch_location_is_safe(next: Option<String>)
    ensures
        safe_redirect_bytes(encode_utf8(switch_location(next))),
{
    reveal_strlit("/");
    let root: Seq<char> = "/"@;
    assert(root == seq!['/']);
    let slash: Seq<char> = seq!['/'];
    assert(vstd::utf8::is_ascii_chars(slash));
    vstd::utf8::is_ascii_chars_encode_utf8(slash);
    assert(encode_utf8(slash)[0] == 47u8);
}

/// A key is free exactly where looking it up finds nothing.
pub proof fn lemma_free_iff_not_found<F: Fn(u64) -> String>(
    pastas: Seq<Pasta>,
    key: Seq<char>,
    encode: F,
)
    ensures
        key_free(pastas, key, encode) <==> key_position(pastas, key, encode) is None,
{
    lemma_key_position(pastas, key, encode);
}

/// No two pastas are known by the same key.
pub open spec fn keys_unique<F: Fn(u64) -> String>(pastas: Seq<Pasta>, encode: F) -> bool {
    forall|i: int, j: int|
        0 <= i < pastas.len() && 0 <= j < pastas.len() && i != j ==> public_key_of(
            #[trigger] pastas[i],
            encode,
        ) != public_key_of(#[trigger] pastas[j], encode)
}

/// Adding a pasta under a key that was free keeps every key unique.
pub proof fn lemma_adding_free_key_keeps_keys_unique<F: Fn(u64) -> String>(
    pastas: Seq<Pasta>,
    pasta: Pasta,
    encode: F,
)
    requires
        keys_unique(pastas, encode),
        key_free(pastas, public_key_of(pasta, encode), encode),
    ensures
        keys_unique(pastas.push(pasta), encode),
{
    let after = pastas.push(pasta);
    assert forall|i: int, j: int|
        0 <= i < after.len() && 0 <= j < after.len() && i != j implies public_key_of(
        #[trigger] after[i],
        encode,
    ) != public_key_of(#[trigger] after[j], encode) by {
        if i == pastas.len() {
            assert(!has_key(pastas[j], public_key_of(pasta, encode), encode));
        } else if j == pastas.len() {
            assert(!has_key(pastas[i], public_key_of(pasta, encode), encode));
        } else {
            assert(after[i] == pastas[i] && after[j] == pastas[j]);
        }
    }
}

/// Where keys are unique, removing the pasta found by a key leaves no pasta
/// known by it, and the remaining keys stay unique.
pub proof fn lemma_removal_frees_key<F: Fn(u64) -> String>(
    pastas: Seq<Pasta>,
    key: Seq<char>,
    encode: F,
)
    requires
        keys_unique(pastas, encode),
        key_position(pastas, key, encode) is Some,
    ensures
        key_free(pastas.remove(key_position(pastas, key, encode)->0), key, encode),
        keys_unique(pastas.remove(key_position(pastas, key, encode)->0), encode),
{
    lemma_key_position(pastas, key, encode);
    let p = key_position(pastas, key, encode)->0;
    let after = pastas.remove(p);
    assert forall|i: int| 0 <= i < after.len() implies !has_key(#[trigger] after[i], key, encode) by {
        if i < p {
            assert(after[i] == pastas[i]);
        } else {
            assert(after[i] == pastas[i + 1]);
            assert(public_key_of(pastas[i + 1], encode) != public_key_of(pastas[p], encode));
        }
    }
    assert forall|i: int, j: int|
        0 <= i < after.len() && 0 <= j < after.len() && i != j implies public_key_of(
        #[trigger] after[i],
        encode,
    ) != public_key_of(#[trigger] after[j], encode) by {
        let oi = if i < p {
            i
        } else {
            i + 1
        };
        let oj = if j < p {
            j
        } else {
            j + 1
        };
        assert(after[i] == pastas[oi]);
        assert(after[j] == pastas[oj]);
    }
}

/// A text escaped for a template and then for HTML holds no `<` and no `>`.
pub proof fn lemma_escaped_content_has_no_tags(content: Seq<char>)
    ensures
        forall|i: int|
            0 <= i < html_text_escaped(template_escaped(content)).len() ==> {
                let c = #[trigger] html_text_escaped(template_escaped(content))[i];
                c != '<' && c != '>'
            },
{
    lemma_html_escaped_has_no_tags(template_escaped(content));
}

proof fn lemma_html_escaped_has_no_tags(s: Seq<char>)
    ensures
        forall|i: int|
            0 <= i < html_text_escaped(s).len() ==> {
                let c = #[trigger] html_text_escaped(s)[i];
                c != '<' && c != '>'
            },
    decreases s.len(),
{
    if s.len() > 0 {
        lemma_html_escaped_has_no_tags(s.drop_last());
        reveal_strlit("&amp;");
        reveal_strlit("&lt;");
        reveal_strlit("&gt;");
        let prefix = html_text_escaped(s.drop_last());
        let c = s.last();
        let last: Seq<char> = if c == '&' {
            "&amp;"@
        } else if c == '<' {
            "&lt;"@
        } else if c == '>' {
            "&gt;"@
        } else {
            seq![c]
        };
        assert(html_text_escaped(s) == prefix + last);
        assert forall|i: int| 0 <= i < html_text_escaped(s).len() implies {
            let d = #[trigger] html_text_escaped(s)[i];
            d != '<' && d != '>'
        } by {
            if i < prefix.len() {
                assert(html_text_escaped(s)[i] == prefix[i]);
            } else {
                assert(html_text_escaped(s)[i] == last[i - prefix.len()]);
            }
        }
    }
}

/// The value of an upper-case hexadecimal digit.
pub open spec fn hex_value(c: char) -> int {
    if '0' <= c && c <= '9' {
        (c as int) - 48
    } else if 'A' <= c && c <= 'F' {
        (c as int) - 55
    } else {
        0
    }
}

/// The bytes that a percent-encoded query value stands for: `%` and two hex
/// digits stand for one byte, any other character for its own code.
pub open spec fn percent_decoded(s: Seq<char>) -> Seq<u8>
    decreases s.len(),
{
    if s.len() == 0 {
        Seq::empty()
    } else if s[0] == '%' && s.len() >= 3 {
        seq![(hex_value(s[1]) * 16 + hex_value(s[2])) as u8] + percent_decoded(s.skip(3))
    } else {
        seq![s[0] as u8] + percent_decoded(s.skip(1))
    }
}

proof fn lemma_percent_encoded_cons(b: u8, t: Seq<u8>)
    ensures
        percent_encoded(seq![b] + t) == encode_path_byte(b) + percent_encoded(t),
    decreases t.len(),
{
    let s = seq![b] + t;
    if t.len() == 0 {
        assert(s == seq![b]);
        assert(s.drop_last() == Seq::<u8>::empty());
        assert(percent_encoded(s.drop_last()) == Seq::<char>::empty());
        assert(percent_encoded(t) == Seq::<char>::empty());
        assert(percent_encoded(s) == Seq::<char>::empty() + encode_path_byte(b));
        assert(Seq::<char>::empty() + encode_path_byte(b) == encode_path_byte(b) + Seq::<char>::empty());
    } else {
        lemma_percent_encoded_cons(b, t.drop_last());
        assert(s.drop_last() == seq![b] + t.drop_last());
        assert(s.last() == t.last());
        assert(percent_encoded(s) == percent_encoded(s.drop_last()) + encode_path_byte(t.last()));
        assert(percent_encoded(t) == percent_encoded(t.drop_last()) + encode_path_byte(t.last()));
        assert(encode_path_byte(b) + percent_encoded(t.drop_last()) + encode_path_byte(t.last())
            == encode_path_byte(b) + (percent_encoded(t.drop_last()) + encode_path_byte(t.last())));
    }
}

proof fn lemma_decode_encoded_byte(b: u8, rest: Seq<char>)
    ensures
        percent_decoded(encode_path_byte(b) + rest) == seq![b] + percent_decoded(rest),
{
    let e = encode_path_byte(b);
    let s = e + rest;
    if is_path_safe_byte(b) {
        assert(s[0] == b as char);
        assert(s.skip(1) == rest);
        assert((b as char) as u8 == b);
    } else {
        assert(s[0] == '%');
        assert(s.skip(3) == rest);
        let hi = (b / 16) as nat;
        let lo = (b % 16) as nat;
        assert(hex_value(hex_digit_upper(hi)) == hi);
        assert(hex_value(hex_digit_upper(lo)) == lo);
        assert((hi * 16 + lo) as u8 == b);
    }
}

/// Decoding an encoded path gives back its bytes: the page that a language
/// switch link comes back to is the page it was made on.
pub proof fn lemma_percent_decoded_round_trip(bytes: Seq<u8>)
    ensures
        percent_decoded(percent_encoded(bytes)) == bytes,
    decreases bytes.len(),
{
    if bytes.len() > 0 {
        let t = bytes.drop_first();
        assert(bytes == seq![bytes[0]] + t);
        lemma_percent_encoded_cons(bytes[0], t);
        lemma_decode_encoded_byte(bytes[0], percent_encoded(t));
        lemma_percent_decoded_round_trip(t);
    }
}

proof fn lemma_trim_start_idempotent(s: Seq<char>)
    ensures
        trim_start(s).len() == 0 || !is_white_space(trim_start(s)[0]),
        trim_start(trim_start(s)) == trim_start(s),
    decreases s.len(),
{
    if s.len() > 0 && is_white_space(s[0]) {
        lemma_trim_start_idempotent(s.drop_first());
    }
}

proof fn lemma_trim_end_idempotent(s: Seq<char>)
    ensures
        trim_end(s).len() == 0 || !is_white_space(trim_end(s).last()),
        trim_end(trim_end(s)) == trim_end(s),
        trim_end(s).len() <= s.len(),
        forall|i: int| 0 <= i < trim_end(s).len() ==> trim_end(s)[i] == s[i],
    decreases s.len(),
{
    if s.len() > 0 && is_white_space(s.last()) {
        lemma_trim_end_idempotent(s.drop_last());
        assert forall|i: int| 0 <= i < trim_end(s).len() implies trim_end(s)[i] == s[i] by {
            assert(trim_end(s)[i] == s.drop_last()[i]);
        }
    }
}

/// Trimming twice trims no more than once: a normalized custom key
/// normalizes to itself.
pub proof fn lemma_trim_idempotent(s: Seq<char>)
    ensures
        trim(trim(s)) == trim(s),
{
    let a = trim_start(s);
    lemma_trim_start_idempotent(s);
    lemma_trim_end_idempotent(a);
    let b = trim_end(a);
    if b.len() > 0 {
        assert(b[0] == a[0]);
    }
    assert(trim_start(b) == b);
}

/// Switching the language by hand is remembered: the cookie the switch sets
/// decides the interface language of later requests, whatever the browser asks for.
pub proof fn lemma_switch_is_remembered(language: Language, header: Option<Seq<char>>)
    ensures
        preferred_language(Some(language_code(language)), header) == language,
{
    lemma_code_round_trip(language);
}

/// Where every pasta keeps its key, every key keeps its first position.
pub proof fn lemma_same_keys_same_position<F: Fn(u64) -> String>(
    before: Seq<Pasta>,
    after: Seq<Pasta>,
    key: Seq<char>,
    encode: F,
)
    requires
        before.len() == after.len(),
        forall|j: int|
            0 <= j < before.len() ==> public_key_of(#[trigger] after[j], encode) == public_key_of(
                before[j],
                encode,
            ),
    ensures
        key_position(after, key, encode) == key_position(before, key, encode),
{
    lemma_key_position(before, key, encode);
    lemma_key_position(after, key, encode);
    let pb = key_position(before, key, encode);
    let pa = key_position(after, key, encode);
    if pb is Some {
        let i = pb->0;
        assert(has_key(after[i], key, encode));
        assert(pa is Some);
        let k = pa->0;
        if k < i {
            assert(has_key(before[k], key, encode));
        } else if k > i {
            assert(!has_key(after[i], key, encode));
        }
    } else if pa is Some {
        let k = pa->0;
        assert(has_key(before[k], key, encode));
    }
}

/// What an edit writes, a raw read by the same key gives back: after the
/// content of the pasta found by `key` is replaced, the same pasta is found
/// by `key` and holds the new content.
pub proof fn lemma_edit_then_read<F: Fn(u64) -> String>(
    pastas: Seq<Pasta>,
    key: Seq<char>,
    content: String,
    encode: F,
)
    requires
        key_position(pastas, key, encode) is Some,
    ensures
        ({
            let i = key_position(pastas, key, encode)->0;
            let edited = pastas.update(i, (Pasta { content: content, ..pastas[i] }));
            &&& key_position(edited, key, encode) == Some(i)
            &&& edited[i].content == content
        }),
{
    lemma_key_position(pastas, key, encode);
    let i = key_position(pastas, key, encode)->0;
    let edited = pastas.update(i, (Pasta { content: content, ..pastas[i] }));
    assert forall|j: int| 0 <= j < pastas.len() implies public_key_of(
        #[trigger] edited[j],
        encode,
    ) == public_key_of(pastas[j], encode) by {
        if j == i {
            assert(edited[j].id == pastas[j].id);
            assert(edited[j].custom_key == pastas[j].custom_key);
        }
    }
    lemma_same_keys_same_position(pastas, edited, key, encode);
}

/// Changing a pasta without touching its id or custom key (an edit, a
/// counted read, a read time) keeps every key where it was and unique keys unique.
pub proof fn lemma_update_keeps_keys<F: Fn(u64) -> String>(
    pastas: Seq<Pasta>,
    i: int,
    updated: Pasta,
    key: Seq<char>,
    encode: F,
)
    requires
        0 <= i < pastas.len(),
        updated.id == pastas[i].id,
        updated.custom_key == pastas[i].custom_key,
    ensures
        key_position(pastas.update(i, updated), key, encode) == key_position(pastas, key, encode),
        keys_unique(pastas, encode) ==> keys_unique(pastas.update(i, updated), encode),
{
    let after = pastas.update(i, updated);
    assert forall|j: int| 0 <= j < pastas.len() implies public_key_of(
        #[trigger] after[j],
        encode,
    ) == public_key_of(pastas[j], encode) by {
        if j == i {
            assert(after[j].id == pastas[j].id && after[j].custom_key == pastas[j].custom_key);
        }
    }
    lemma_same_keys_same_position(pastas, after, key, encode);
    if keys_unique(pastas, encode) {
        assert forall|a: int, b: int|
            0 <= a < after.len() && 0 <= b < after.len() && a != b implies public_key_of(
            #[trigger] after[a],
            encode,
        ) != public_key_of(#[trigger] after[b], encode) by {
            assert(public_key_of(after[a], encode) == public_key_of(pastas[a], encode));
            assert(public_key_of(after[b], encode) == public_key_of(pastas[b], encode));
        }
    }
}

/// A character allowed in a custom key: `a`-`z`, `0`-`9`, `-` or `_`.
pub open spec fn is_key_char(c: char) -> bool {
    let code = c as u32;
    (97 <= code && code <= 122) || (48 <= code && code <= 57) || code == 45 || code == 95
}

proof fn lemma_leading_bytes(scalar: u32)
    ensures
        scalar <= 0x7F ==> vstd::utf8::leading_byte_width_1(scalar) == scalar as u8,
        vstd::utf8::leading_byte_width_2(scalar) >= 0xC0,
        vstd::utf8::leading_byte_width_3(scalar) >= 0xC0,
        vstd::utf8::leading_byte_width_4(scalar) >= 0xC0,
{
    assert(scalar <= 0x7F ==> (scalar & 0x7F) as u8 == scalar as u8) by (bit_vector);
    assert((0xC0 | ((scalar >> 6) & 0x1F) as u8) >= 0xC0) by (bit_vector);
    assert((0xE0 | ((scalar >> 12) & 0x0F) as u8) >= 0xC0) by (bit_vector);
    assert((0xF0 | ((scalar >> 18) & 0x7) as u8) >= 0xC0) by (bit_vector);
}

proof fn lemma_key_bytes_are_key_chars(s: Seq<char>)
    requires
        forall|i: int|
            0 <= i < encode_utf8(s).len() ==> crate::pasta::is_key_byte(#[trigger] encode_utf8(s)[i]),
    ensures
        encode_utf8(s).len() == s.len(),
        forall|i: int| 0 <= i < s.len() ==> is_key_char(#[trigger] s[i]),
    decreases s.len(),
{
    if s.len() > 0 {
        let c = s[0];
        let scalar = c as u32;
        let head = vstd::utf8::encode_scalar(scalar);
        let rest = encode_utf8(s.drop_first());
        let all = encode_utf8(s);
        assert(all == head + rest);
        lemma_leading_bytes(scalar);
        assert(head.len() >= 1 && all[0] == head[0]);
        assert(crate::pasta::is_key_byte(all[0]));
        assert(vstd::utf8::has_width_1_encoding(scalar));
        assert(head == seq![scalar as u8]);
        assert((scalar as u8) as u32 == scalar) by (bit_vector)
            requires
                scalar <= 0x7F,
        ;
        let b = scalar as u8;
        assert(b as u32 == c as u32);
        assert(head[0] == b);
        assert(crate::pasta::is_key_byte(b));
        assert(97 <= c as u32 <= 122 || 48 <= c as u32 <= 57 || c as u32 == 45 || c as u32 == 95);
        assert(is_key_char(c));
        assert forall|i: int| 0 <= i < rest.len() implies crate::pasta::is_key_byte(
            #[trigger] rest[i],
        ) by {
            assert(rest[i] == all[i + 1]);
        }
        lemma_key_bytes_are_key_chars(s.drop_first());
        assert forall|i: int| 0 <= i < s.len() implies is_key_char(#[trigger] s[i]) by {
            if i > 0 {
                assert(s[i] == s.drop_first()[i - 1]);
            }
        }
    }
}

/// A valid custom key is 3 to 64 characters long, each of them `a`-`z`,
/// `0`-`9`, `-` or `_`.
pub proof fn lemma_valid_key_characters(key: Seq<char>)
    requires
        crate::pasta::valid_custom_key(key),
    ensures
        3 <= key.len() <= 64,
        forall|i: int| 0 <= i < key.len() ==> is_key_char(#[trigger] key[i]),
{
    lemma_key_bytes_are_key_chars(key);
}

proof fn lemma_split_pieces_lack_separator(s: Seq<char>, sep: char)
    ensures
        forall|i: int, j: int|
            0 <= i < split_on(s, sep).len() && 0 <= j < split_on(s, sep)[i].len() ==> #[trigger] split_on(
                s,
                sep,
            )[i][j] != sep,
    decreases s.len(),
{
    if s.len() > 0 {
        let rest = split_on(s.drop_first(), sep);
        lemma_split_pieces_lack_separator(s.drop_first(), sep);
        lemma_split_on_nonempty(s.drop_first(), sep);
        if s[0] == sep {
            assert forall|i: int, j: int|
                0 <= i < split_on(s, sep).len() && 0 <= j < split_on(s, sep)[i].len() implies #[trigger] split_on(
                s,
                sep,
            )[i][j] != sep by {
                assert(split_on(s, sep)[i] == (seq![Seq::<char>::empty()] + rest)[i]);
                if i > 0 {
                    assert(split_on(s, sep)[i] == rest[i - 1]);
                }
            }
        } else {
            assert forall|i: int, j: int|
                0 <= i < split_on(s, sep).len() && 0 <= j < split_on(s, sep)[i].len() implies #[trigger] split_on(
                s,
                sep,
            )[i][j] != sep by {
                if i == 0 {
                    let first = seq![s[0]] + rest[0];
                    assert(split_on(s, sep)[0] == first);
                    if j > 0 {
                        assert(first[j] == rest[0][j - 1]);
                    }
                } else {
                    assert(split_on(s, sep)[i] == rest[i]);
                }
            }
        }
    }
}

proof fn lemma_last_component_is_piece(pieces: Seq<Seq<char>>)
    ensures
        last_component(pieces) matches Some(c) ==> c.len() > 0 && c != "."@ && exists|i: int|
            0 <= i < pieces.len() && #[trigger] pieces[i] == c,
    decreases pieces.len(),
{
    if pieces.len() > 0 {
        if pieces.last().len() == 0 || pieces.last() == "."@ {
            lemma_last_component_is_piece(pieces.drop_last());
            if last_component(pieces) is Some {
                let c = last_component(pieces)->0;
                let i = choose|i: int| 0 <= i < pieces.drop_last().len() && #[trigger] pieces.drop_last()[i] == c;
                assert(pieces[i] == c);
            }
        } else {
            assert(pieces[pieces.len() - 1] == pieces.last());
        }
    }
}

/// The file name of a path is a single plain name: not empty, not `.` or
/// `..`, and without any `/`.
pub proof fn lemma_file_name_is_plain(path: Seq<char>)
    ensures
        path_file_name(path) matches Some(name) ==> {
            &&& name.len() > 0
            &&& name != "."@
            &&& name != ".."@
            &&& forall|j: int| 0 <= j < name.len() ==> name[j] != '/'
        },
{
    let pieces = split_on(path, '/');
    lemma_last_component_is_piece(pieces);
    lemma_split_pieces_lack_separator(path, '/');
    if path_file_name(path) is Some {
        let name = path_file_name(path)->0;
        let i = choose|i: int| 0 <= i < pieces.len() && #[trigger] pieces[i] == name;
        assert forall|j: int| 0 <= j < name.len() implies name[j] != '/' by {
            assert(pieces[i][j] != '/');
        }
    }
}

/// An attachment stored for an uploaded path has a plain name: not empty,
/// not `.` or `..`, and without any `/`, so it stays inside the pasta's directory.
pub proof fn lemma_attachment_name_is_plain(path: Seq<char>)
    ensures
        path_file_name(path) matches Some(name) ==> {
            let stored = spaces_to_underscores(name);
            &&& stored.len() > 0
            &&& stored != "."@
            &&& stored != ".."@
            &&& forall|j: int| 0 <= j < stored.len() ==> stored[j] != '/'
        },
{
    lemma_file_name_is_plain(path);
    if path_file_name(path) is Some {
        let name = path_file_name(path)->0;
        let stored = spaces_to_underscores(name);
        reveal_strlit(".");
        reveal_strlit("..");
        if stored == "."@ {
            assert(stored[0] == '.');
            assert(name[0] == '.');
            assert(name =~= "."@);
        }
        if stored == ".."@ {
            assert(stored.len() == name.len());
            assert(stored[0] == '.' && stored[1] == '.');
            assert(stored[1] == (if name[1] == ' ' {
                '_'
            } else {
                name[1]
            }));
            assert(name[0] == '.' && name[1] == '.');
            assert(name =~= ".."@);
        }
    }
}

/// The expiry a visitor picks is that many seconds after creation, whether or
/// not eternal pastas are off: a minute, ten minutes, an hour, a day, three
/// days or a week. Turning eternal pastas off only changes "never" (no expiry,
/// written 0) into a week; anything else the form sends counts as a week.
pub proof fn lemma_expiration_choices(now: int, no_eternal_pasta: bool)
    ensures
        expiration_after("1min"@, now, no_eternal_pasta) == now + 60,
        expiration_after("10min"@, now, no_eternal_pasta) == now + 600,
        expiration_after("1hour"@, now, no_eternal_pasta) == now + 3600,
        expiration_after("24hour"@, now, no_eternal_pasta) == now + 86400,
        expiration_after("3days"@, now, no_eternal_pasta) == now + 259200,
        expiration_after("1week"@, now, no_eternal_pasta) == now + 604800,
        expiration_after("never"@, now, false) == 0,
        expiration_after("never"@, now, true) == now + 604800,
        forall|choice: Seq<char>|
            choice != "1min"@ && choice != "10min"@ && choice != "1hour"@ && choice != "24hour"@
                && choice != "3days"@ && choice != "1week"@ && choice != "never"@
                ==> #[trigger] expiration_after(choice, now, no_eternal_pasta) == now + 604800,
{
    reveal_strlit("1min");
    reveal_strlit("10min");
    reveal_strlit("1hour");
    reveal_strlit("24hour");
    reveal_strlit("3days");
    reveal_strlit("1week");
    reveal_strlit("never");
    assert("10min"@[1] != "1hour"@[1]);
    assert("10min"@[0] != "3days"@[0]);
    assert("10min"@[1] != "1week"@[1]);
    assert("10min"@[0] != "never"@[0]);
    assert("1hour"@[0] != "3days"@[0]);
    assert("1hour"@[1] != "1week"@[1]);
    assert("1hour"@[0] != "never"@[0]);
    assert("3days"@[0] != "1week"@[0]);
    assert("3days"@[0] != "never"@[0]);
    assert("1week"@[0] != "never"@[0]);
    assert("24hour"@.len() != "1min"@.len());
    assert("24hour"@.len() != "10min"@.len());
    assert("24hour"@.len() != "1hour"@.len());
    assert("24hour"@ != "1min"@);
    assert("24hour"@ != "10min"@);
    assert("24hour"@ != "1hour"@);
}

/// How long ago, by range: from two days on it counts days, from two hours on
/// hours, from two minutes on minutes, from two seconds on seconds; each with
/// its own unit in each language.
pub proof fn lemma_relative_time_units(e: int)
    ensures
        e >= 2 * 86400 ==> relative_time_text(Language::SimplifiedChinese, e) == decimal(
            (e / 86400) as nat,
        ) + "天前"@ && relative_time_text(Language::English, e) == decimal((e / 86400) as nat)
            + " days ago"@,
        2 * 3600 <= e < 2 * 86400 ==> relative_time_text(Language::SimplifiedChinese, e)
            == decimal((e / 3600) as nat) + "小时前"@ && relative_time_text(Language::English, e)
            == decimal((e / 3600) as nat) + " hours ago"@,
        2 * 60 <= e < 2 * 3600 ==> relative_time_text(Language::SimplifiedChinese, e) == decimal(
            (e / 60) as nat,
        ) + "分钟前"@ && relative_time_text(Language::English, e) == decimal((e / 60) as nat)
            + " minutes ago"@,
        2 <= e < 2 * 60 ==> relative_time_text(Language::SimplifiedChinese, e) == decimal(
            e as nat,
        ) + "秒前"@ && relative_time_text(Language::English, e) == decimal(e as nat)
            + " seconds ago"@,
{
    reveal_strlit("天");
    reveal_strlit("小时");
    reveal_strlit("分钟");
    reveal_strlit("秒");
    reveal_strlit("前");
    reveal_strlit("天前");
    reveal_strlit("小时前");
    reveal_strlit("分钟前");
    reveal_strlit("秒前");
    reveal_strlit(" ");
    reveal_strlit("s");
    reveal_strlit(" ago");
    reveal_strlit("day");
    reveal_strlit("hour");
    reveal_strlit("minute");
    reveal_strlit("second");
    reveal_strlit(" days ago");
    reveal_strlit(" hours ago");
    reveal_strlit(" minutes ago");
    reveal_strlit(" seconds ago");
    let zh = Language::SimplifiedChinese;
    let en = Language::English;
    if e >= 2 * 86400 {
        let d = decimal((e / 86400) as nat);
        assert(d + "天"@ + "前"@ =~= d + "天前"@);
        assert(d + " "@ + "day"@ + "s"@ + " ago"@ =~= d + " days ago"@);
    } else if e >= 2 * 3600 {
        let d = decimal((e / 3600) as nat);
        assert(d + "小时"@ + "前"@ =~= d + "小时前"@);
        assert(d + " "@ + "hour"@ + "s"@ + " ago"@ =~= d + " hours ago"@);
    } else if e >= 2 * 60 {
        let d = decimal((e / 60) as nat);
        assert(d + "分钟"@ + "前"@ =~= d + "分钟前"@);
        assert(d + " "@ + "minute"@ + "s"@ + " ago"@ =~= d + " minutes ago"@);
    } else if e >= 2 {
        let d = decimal(e as nat);
        assert(d + "秒"@ + "前"@ =~= d + "秒前"@);
        assert(d + " "@ + "second"@ + "s"@ + " ago"@ =~= d + " seconds ago"@);
    }
}

/// A byte that may stand in an ordinary same-site path with a query: an ASCII
/// letter or digit, or one of `-`, `_`, `.`, `~`, `/`, `?`, `=`, `&`, `%`, `#`, `+`.
pub open spec fn is_plain_path_byte(b: u8) -> bool {
    ||| 48 <= b <= 57
    ||| 65 <= b <= 90
    ||| 97 <= b <= 122
    ||| b == 45 || b == 95 || b == 46 || b == 126 || b == 47
    ||| b == 63 || b == 61 || b == 38 || b == 37 || b == 35 || b == 43
}

/// The redirect check refuses exactly what leaves the site or breaks the
/// header: a path is safe if and only if it starts with `/` but not `//`,
/// holds no backslash, no `://` and no control byte.
pub proof fn lemma_safe_redirect_exactly(b: Seq<u8>)
    ensures
        safe_redirect_bytes(b) <==> {
            &&& b.len() >= 1 && b[0] == 47
            &&& b.len() >= 2 ==> b[1] != 47
            &&& forall|i: int| 0 <= i < b.len() ==> b[i] != 92 && 32 <= b[i] && b[i] != 127
            &&& forall|i: int|
                0 <= i && i + 2 < b.len() ==> !(#[trigger] b[i] == 58 && b[i + 1] == 47 && b[i
                    + 2] == 47)
        },
{
}

/// Every ordinary same-site path is accepted: one that starts with a single
/// `/` and is made of letters, digits, `-`, `_`, `.`, `~`, `/`, `?`, `=`, `&`,
/// `%`, `#` and `+` only.
pub proof fn lemma_plain_paths_are_safe(b: Seq<u8>)
    requires
        b.len() >= 1 && b[0] == 47,
        b.len() >= 2 ==> b[1] != 47,
        forall|i: int| 0 <= i < b.len() ==> is_plain_path_byte(#[trigger] b[i]),
    ensures
        safe_redirect_bytes(b),
{
    lemma_safe_redirect_exactly(b);
    assert forall|i: int| 0 <= i && i + 2 < b.len() implies !(#[trigger] b[i] == 58 && b[i + 1]
        == 47 && b[i + 2] == 47) by {
        assert(is_plain_path_byte(b[i]));
    }
    assert forall|i: int| 0 <= i < b.len() implies #[trigger] b[i] != 92 && 32 <= b[i] && b[i]
        != 127 by {
        assert(is_plain_path_byte(b[i]));
    }
}

proof fn lemma_key_chars_encode_as_key_bytes(key: Seq<char>)
    requires
        forall|i: int| 0 <= i < key.len() ==> is_key_char(#[trigger] key[i]),
    ensures
        encode_utf8(key).len() == key.len(),
        forall|i: int|
            0 <= i < encode_utf8(key).len() ==> crate::pasta::is_key_byte(
                #[trigger] encode_utf8(key)[i],
            ),
    decreases key.len(),
{
    if key.len() > 0 {
        let c = key[0];
        let scalar = c as u32;
        assert(is_key_char(key[0]));
        assert(scalar <= 0x7F);
        let head = vstd::utf8::encode_scalar(scalar);
        lemma_leading_bytes(scalar);
        assert(head == seq![scalar as u8]);
        assert((scalar as u8) as u32 == scalar) by (bit_vector)
            requires
                scalar <= 0x7F,
        ;
        assert(crate::pasta::is_key_byte(scalar as u8));
        let rest = key.drop_first();
        assert forall|i: int| 0 <= i < rest.len() implies is_key_char(#[trigger] rest[i]) by {
            assert(rest[i] == key[i + 1]);
        }
        lemma_key_chars_encode_as_key_bytes(rest);
        let all = encode_utf8(key);
        assert(all == head + encode_utf8(rest));
        assert forall|i: int| 0 <= i < all.len() implies crate::pasta::is_key_byte(
            #[trigger] all[i],
        ) by {
            if i == 0 {
                assert(all[0] == head[0]);
            } else {
                assert(all[i] == encode_utf8(rest)[i - 1]);
            }
        }
    }
}

/// Every text of 3 to 64 characters, each `a`-`z`, `0`-`9`, `-` or `_`, is a
/// valid custom key (the converse of `lemma_valid_key_characters`).
pub proof fn lemma_key_characters_make_valid_key(key: Seq<char>)
    requires
        3 <= key.len() <= 64,
        forall|i: int| 0 <= i < key.len() ==> is_key_char(#[trigger] key[i]),
    ensures
        crate::pasta::valid_custom_key(key),
{
    lemma_key_chars_encode_as_key_bytes(key);
}

/// A text escaped for a template literal, read back: a backslash followed by
/// a backtick or dollar sign stands for that sign; any other character for itself.
pub open spec fn template_unescaped(t: Seq<char>) -> Seq<char>
    decreases t.len(),
{
    if t.len() == 0 {
        Seq::empty()
    } else if t.len() >= 2 && t[0] == '\\' && (t[1] == '`' || t[1] == '$') {
        seq![t[1]] + template_unescaped(t.skip(2))
    } else {
        seq![t[0]] + template_unescaped(t.skip(1))
    }
}

/// The escaped form of one character.
spec fn template_token(c: char) -> Seq<char> {
    if c == '`' {
        seq!['\\', '`']
    } else if c == '$' {
        seq!['\\', '$']
    } else {
        seq![c]
    }
}

proof fn lemma_template_escaped_cons(c: char, t: Seq<char>)
    ensures
        template_escaped(seq![c] + t) == template_token(c) + template_escaped(t),
    decreases t.len(),
{
    let s = seq![c] + t;
    if t.len() == 0 {
        assert(s.drop_last() == Seq::<char>::empty());
        assert(s.last() == c);
        assert(template_escaped(s.drop_last()) == Seq::<char>::empty());
        assert(template_escaped(s) == Seq::<char>::empty() + template_token(c));
        assert(template_escaped(t) == Seq::<char>::empty());
        assert(Seq::<char>::empty() + template_token(c) =~= template_token(c) + Seq::<char>::empty());
    } else {
        lemma_template_escaped_cons(c, t.drop_last());
        assert(s.drop_last() == seq![c] + t.drop_last());
        assert(s.last() == t.last());
        assert(template_escaped(s) == template_escaped(s.drop_last()) + template_token(t.last()));
        assert(template_escaped(t) == template_escaped(t.drop_last()) + template_token(t.last()));
        assert(template_token(c) + template_escaped(t.drop_last()) + template_token(t.last())
            =~= template_token(c) + (template_escaped(t.drop_last()) + template_token(t.last())));
    }
}

proof fn lemma_template_escaped_start(t: Seq<char>)
    ensures
        template_escaped(t).len() > 0 ==> template_escaped(t)[0] != '`' && template_escaped(t)[0]
            != '$',
{
    if t.len() > 0 {
        assert(t == seq![t[0]] + t.skip(1));
        lemma_template_escaped_cons(t[0], t.skip(1));
    }
}

/// Escaping for a template only adds backslashes: reading the escaped text
/// back gives the original text, every character in its place.
pub proof fn lemma_template_escape_round_trip(s: Seq<char>)
    ensures
        template_unescaped(template_escaped(s)) == s,
    decreases s.len(),
{
    if s.len() > 0 {
        let c = s[0];
        let t = s.skip(1);
        assert(s == seq![c] + t);
        lemma_template_escaped_cons(c, t);
        lemma_template_escape_round_trip(t);
        lemma_template_escaped_start(t);
        let rest = template_escaped(t);
        let whole = template_token(c) + rest;
        if c == '`' || c == '$' {
            assert(whole.skip(2) == rest);
            assert(template_unescaped(whole) == seq![c] + template_unescaped(rest));
        } else {
            assert(whole.skip(1) == rest);
            assert(template_unescaped(whole) == seq![c] + template_unescaped(rest));
        }
    }
}

/// No backtick or dollar sign is left bare by the template escaping: each one
/// in the escaped text stands right after a backslash.
pub proof fn lemma_template_signs_are_escaped(s: Seq<char>)
    ensures
        forall|i: int|
            0 <= i < template_escaped(s).len() && (#[trigger] template_escaped(s)[i] == '`'
                || template_escaped(s)[i] == '$') ==> i >= 1 && template_escaped(s)[i - 1]
                == '\\',
    decreases s.len(),
{
    if s.len() > 0 {
        lemma_template_signs_are_escaped(s.drop_last());
        let p = template_escaped(s.drop_last());
        let t = template_escaped(s);
        assert(t == p + template_token(s.last()));
        assert forall|i: int|
            0 <= i < t.len() && (#[trigger] t[i] == '`' || t[i] == '$') implies i >= 1 && t[i
                - 1] == '\\' by {
            if i < p.len() {
                assert(t[i] == p[i]);
                assert(t[i - 1] == p[i - 1]);
            } else {
                assert(t[i] == template_token(s.last())[i - p.len()]);
                if i == p.len() + 1 {
                    assert(t[i - 1] == template_token(s.last())[0]);
                }
            }
        }
    }
}

/// The burn limit a visitor picks: one read becomes two (the redirect to the
/// new pasta is a read), ten, a hundred, a thousand and ten thousand stay as
/// they are, and "0" or anything else is no limit.
pub proof fn lemma_burn_after_choices()
    ensures
        burn_after_choice("1"@) == 2,
        burn_after_choice("10"@) == 10,
        burn_after_choice("100"@) == 100,
        burn_after_choice("1000"@) == 1000,
        burn_after_choice("10000"@) == 10000,
        burn_after_choice("0"@) == 0,
        forall|choice: Seq<char>|
            choice != "1"@ && choice != "10"@ && choice != "100"@ && choice != "1000"@ && choice
                != "10000"@ ==> #[trigger] burn_after_choice(choice) == 0,
{
    reveal_strlit("1");
    reveal_strlit("10");
    reveal_strlit("100");
    reveal_strlit("1000");
    reveal_strlit("10000");
    reveal_strlit("0");
    assert("0"@[0] != "1"@[0]);
    assert("0"@.len() != "10"@.len() && "0"@.len() != "100"@.len() && "0"@.len() != "1000"@.len()
        && "0"@.len() != "10000"@.len());
}

/// The "last read" text by range: days from two days on, else hours from two
/// hours on, else minutes from two minutes on, else seconds from two seconds
/// on, else "just now" (for spans below 65536 days, where no count wraps).
pub proof fn lemma_time_ago_units(e: nat)
    requires
        e < 65536 * 86400,
    ensures
        e >= 2 * 86400 ==> time_ago_text(e) == decimal(e / 86400) + " days ago"@,
        2 * 3600 <= e < 2 * 86400 ==> time_ago_text(e) == decimal(e / 3600) + " hours ago"@,
        2 * 60 <= e < 2 * 3600 ==> time_ago_text(e) == decimal(e / 60) + " minutes ago"@,
        2 <= e < 2 * 60 ==> time_ago_text(e) == decimal(e) + " seconds ago"@,
        e < 2 ==> time_ago_text(e) == "just now"@,
{
}

/// Path encoding keeps ASCII letters, digits, `-`, `_`, `.`, `~` and `/` as
/// they are and writes every other byte as `%` and two upper-case hex digits.
pub proof fn lemma_path_byte_encoding(b: u8)
    ensures
        (48 <= b <= 57 || 65 <= b <= 90 || 97 <= b <= 122 || b == 45 || b == 95 || b == 46 || b
            == 126 || b == 47) ==> encode_path_byte(b) == seq![b as char],
        !(48 <= b <= 57 || 65 <= b <= 90 || 97 <= b <= 122 || b == 45 || b == 95 || b == 46 || b
            == 126 || b == 47) ==> encode_path_byte(b).len() == 3 && encode_path_byte(b)[0] == '%'
            && hex_value(encode_path_byte(b)[1]) * 16 + hex_value(encode_path_byte(b)[2]) == b,
{
    if !is_path_safe_byte(b) {
        let hi = (b / 16) as nat;
        let lo = (b % 16) as nat;
        assert(hex_value(hex_digit_upper(hi)) == hi);
        assert(hex_value(hex_digit_upper(lo)) == lo);
    }
}

} // verus!
