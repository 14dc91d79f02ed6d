//! Pastas and their keys: custom keys, generated keys, lookups by key, and
//! how a pasta's times and content are shown.
use vstd::prelude::*;
use vstd::string::StringSliceAdditionalSpecFns;
use vstd::utf8::encode_utf8;

use chrono::{Datelike, TimeZone, Timelike};
use std::time::{SystemTime, UNIX_EPOCH};

use crate::text::{
    chars_of, decimal, push_char, push_decimal, push_str, push_two_digits, split_on, str_eq,
    string_from_range, trim, trim_bounds, two_digits,
};

verus! {

/// A file attached to a pasta: its sanitized name and its size in bytes.
pub struct PastaFile {
    pub name: String,
    pub size: u64,
}

/// The last piece of a path that is neither empty nor `.`, if there is one.
pub open spec fn last_component(pieces: Seq<Seq<char>>) -> Option<Seq<char>>
    decreases pieces.len(),
{
    if pieces.len() == 0 {
        None
    } else if pieces.last().len() == 0 || pieces.last() == "."@ {
        last_component(pieces.drop_last())
    } else {
        Some(pieces.last())
    }
}

/// The file name of a path on a Unix target, as `Path::file_name` gives it:
/// the path's last component, where repeated and trailing `/` and `.`
/// components are normalized away; none where there is no such component or
/// it is `..`.
pub open spec fn path_file_name(path: Seq<char>) -> Option<Seq<char>> {
    match last_component(split_on(path, '/')) {
        Some(name) => if name == ".."@ {
            None
        } else {
            Some(name)
        },
        None => None,
    }
}

/// Calls `std::path::Path::file_name` on `path` and turns the name into a `String`.
/// Claims what the documentation of `Path::file_name` and `Path::components`
/// says on a Unix target (where `/` is the only separator): the final normal
/// component, after empty and `.` components are normalized away, and none
/// where the path ends in `..` or has no component. The name comes from a
/// `&str`, so `to_string_lossy` keeps it unchanged.
#[verifier::external_body]
fn final_component(path: &str) -> (r: Option<String>)
    ensures
        match r {
            Some(name) => path_file_name(path@) == Some(name@),
            None => path_file_name(path@) == None::<Seq<char>>,
        },
{
    match std::path::Path::new(path).file_name() {
        Some(name) => Some(name.to_string_lossy().into_owned()),
        None => None,
    }
}

/// `s` with every space replaced by an underscore.
pub open spec fn spaces_to_underscores(s: Seq<char>) -> Seq<char> {
    s.map_values(|c: char|
        if c == ' ' {
            '_'
        } else {
            c
        }
    )
}

impl PastaFile {
    /// The attachment for a file whose name is `component` (the final component
    /// of the uploaded path, where it has one), with spaces turned into
    /// underscores and a size of zero.
    pub fn from_final_component(component: Option<&str>) -> (r: Result<Self, &'static str>)
        ensures
            match component {
                None => r is Err && r->Err_0@ == "Path did not contain a file name"@,
                Some(name) => r is Ok && r->Ok_0.name@ == spaces_to_underscores(name@)
                    && r->Ok_0.size == 0,
            },
    {
        match component {
            None => Err("Path did not contain a file name"),
            Some(name) => {
                let v = chars_of(name);
                let mut sanitized = String::new();
                let n = v.len();
                for i in 0..n
                    invariant
                        n == v@.len(),
                        sanitized@ == spaces_to_underscores(v@.take(i as int)),
                {
                    let c = v[i];
                    if c == ' ' {
                        push_char(&mut sanitized, '_');
                    } else {
                        push_char(&mut sanitized, c);
                    }
                    assert(spaces_to_underscores(v@.take(i + 1)) =~= spaces_to_underscores(
                        v@.take(i as int),
                    ).push(if c == ' ' {
                        '_'
                    } else {
                        c
                    }));
                }
                assert(v@.take(n as int) == v@);
                Ok(PastaFile { name: sanitized, size: 0 })
            },
        }
    }

    /// The attachment for an uploaded path: named after the path's final
    /// component, or an error where the path has none.
    pub fn from_unsanitized(path: &str) -> (r: Result<Self, &'static str>)
        ensures
            match path_file_name(path@) {
                None => r is Err && r->Err_0@ == "Path did not contain a file name"@,
                Some(name) => r is Ok && r->Ok_0.name@ == spaces_to_underscores(name)
                    && r->Ok_0.size == 0,
            },
    {
        let component = final_component(path);
        match component {
            Some(name) => Self::from_final_component(Some(name.as_str())),
            None => Self::from_final_component(None),
        }
    }

    pub fn name(&self) -> (r: &str)
        ensures
            r@ == self.name@,
    {
        self.name.as_str()
    }
}

pub struct Pasta {
    pub id: u64,
    pub custom_key: Option<String>,
    pub content: String,
    pub file: Option<PastaFile>,
    pub extension: String,
    pub private: bool,
    pub editable: bool,
    pub created: i64,
    pub expiration: i64,
    pub last_read: i64,
    pub read_count: u64,
    pub burn_after_reads: u64,
    pub pasta_type: String,
}

/// A byte allowed in a custom key: `a`-`z`, `0`-`9`, `-` or `_`.
pub open spec fn is_key_byte(b: u8) -> bool {
    (97 <= b && b <= 122) || (48 <= b && b <= 57) || b == 45 || b == 95
}

/// A custom key is 3 to 64 bytes long, each of them allowed in a key.
pub open spec fn valid_custom_key(key: Seq<char>) -> bool {
    let bytes = encode_utf8(key);
    &&& 3 <= bytes.len() <= 64
    &&& forall|i: int| 0 <= i < bytes.len() ==> is_key_byte(#[trigger] bytes[i])
}

/// A function that turns a pasta's id into its generated key: callable on
/// every id, and giving the same key each time for the same id.
pub open spec fn is_key_encoder<F: Fn(u64) -> String>(encode: F) -> bool {
    &&& forall|id: u64| call_requires(encode, (id,))
    &&& forall|id: u64, a: String, b: String|
        #![trigger call_ensures(encode, (id,), a), call_ensures(encode, (id,), b)]
        call_ensures(encode, (id,), a) && call_ensures(encode, (id,), b) ==> a@ == b@
}

/// The key that `encode` generates for `id`.
pub open spec fn encoded_key<F: Fn(u64) -> String>(encode: F, id: u64) -> Seq<char> {
    (choose|k: String| call_ensures(encode, (id,), k))@
}

/// The key of a pasta: its custom key where it has a valid one, else the
/// key generated from its id.
pub open spec fn public_key_of<F: Fn(u64) -> String>(pasta: Pasta, encode: F) -> Seq<char> {
    match pasta.custom_key {
        Some(key) => if valid_custom_key(key@) {
            key@
        } else {
            encoded_key(encode, pasta.id)
        },
        None => encoded_key(encode, pasta.id),
    }
}

/// Whether `pasta` is known by `key`.
pub open spec fn has_key<F: Fn(u64) -> String>(pasta: Pasta, key: Seq<char>, encode: F) -> bool {
    public_key_of(pasta, encode) == key
}

/// The first position in `pastas` of a pasta known by `key`, if there is one.
pub open spec fn key_position<F: Fn(u64) -> String>(
    pastas: Seq<Pasta>,
    key: Seq<char>,
    encode: F,
) -> Option<int> {
    if exists|i: int| 0 <= i < pastas.len() && has_key(#[trigger] pastas[i], key, encode) {
        Some(
            choose|i: int|
                0 <= i < pastas.len() && has_key(#[trigger] pastas[i], key, encode) && forall|
                    j: int,
                | 0 <= j < i ==> !has_key(#[trigger] pastas[j], key, encode),
        )
    } else {
        None
    }
}

/// The first position of a key, where there is one, is in range and holds a
/// pasta known by the key, and no earlier pasta is known by it; where there
/// is none, no pasta is known by the key.
pub proof fn lemma_key_position<F: Fn(u64) -> String>(pastas: Seq<Pasta>, key: Seq<char>, encode: F)
    ensures
        match key_position(pastas, key, encode) {
            Some(i) => 0 <= i < pastas.len() && has_key(pastas[i], key, encode) && forall|j: int|
                0 <= j < i ==> !has_key(#[trigger] pastas[j], key, encode),
            None => key_free(pastas, key, encode),
        },
{
    if exists|i: int| 0 <= i < pastas.len() && has_key(#[trigger] pastas[i], key, encode) {
        let w = choose|i: int| 0 <= i < pastas.len() && has_key(#[trigger] pastas[i], key, encode);
        lemma_first_with_key(pastas, key, encode, w);
    }
}

/// Where some pasta at or before `w` is known by `key`, there is a first one.
proof fn lemma_first_with_key<F: Fn(u64) -> String>(
    pastas: Seq<Pasta>,
    key: Seq<char>,
    encode: F,
    w: int,
)
    requires
        0 <= w < pastas.len(),
        has_key(pastas[w], key, encode),
    ensures
        exists|i: int|
            0 <= i < pastas.len() && has_key(#[trigger] pastas[i], key, encode) && forall|j: int|
                0 <= j < i ==> !has_key(#[trigger] pastas[j], key, encode),
    decreases w,
{
    if exists|j: int| 0 <= j < w && has_key(#[trigger] pastas[j], key, encode) {
        let v = choose|j: int| 0 <= j < w && has_key(#[trigger] pastas[j], key, encode);
        lemma_first_with_key(pastas, key, encode, v);
    } else {
        assert(forall|j: int| 0 <= j < w ==> !has_key(#[trigger] pastas[j], key, encode));
    }
}

/// Whether no pasta in `pastas` is known by `key`.
pub open spec fn key_free<F: Fn(u64) -> String>(
    pastas: Seq<Pasta>,
    key: Seq<char>,
    encode: F,
) -> bool {
    forall|i: int| 0 <= i < pastas.len() ==> !has_key(#[trigger] pastas[i], key, encode)
}

/// Calls `encode` on `id`.
pub(crate) fn encode_id<F: Fn(u64) -> String>(encode: &F, id: u64) -> (r: String)
    requires
        is_key_encoder(*encode),
    ensures
        r@ == encoded_key(*encode, id),
{
    let r = encode(id);
    assert(call_ensures(*encode, (id,), r));
    r
}

/// The key that the configured scheme generates for `id`.
pub open spec fn scheme_key<H: Fn(u64) -> String, A: Fn(u64) -> String>(
    id: u64,
    hash_ids: bool,
    to_hashids: H,
    to_animal_names: A,
) -> Seq<char> {
    if hash_ids {
        encoded_key(to_hashids, id)
    } else {
        encoded_key(to_animal_names, id)
    }
}

/// The key generated for `id`: by `to_hashids` where hash ids are configured,
/// else by `to_animal_names`. The same id always gets the same key.
pub fn generated_key<H: Fn(u64) -> String, A: Fn(u64) -> String>(
    id: u64,
    hash_ids: bool,
    to_hashids: &H,
    to_animal_names: &A,
) -> (r: String)
    requires
        is_key_encoder(*to_hashids),
        is_key_encoder(*to_animal_names),
    ensures
        r@ == scheme_key(id, hash_ids, *to_hashids, *to_animal_names),
{
    if hash_ids {
        encode_id(to_hashids, id)
    } else {
        encode_id(to_animal_names, id)
    }
}

/// Whether `value` is a valid custom key: 3 to 64 bytes, each a lower-case
/// ASCII letter, a digit, `-` or `_`.
pub fn is_valid_custom_key(value: &str) -> (r: bool)
    ensures
        r == valid_custom_key(value@),
{
    let bytes = value.as_bytes();
    let n = bytes.len();
    if n < 3 || n > 64 {
        return false;
    }
    for i in 0..n
        invariant
            n == bytes@.len(),
            bytes@ == encode_utf8(value@),
            forall|k: int| 0 <= k < i ==> is_key_byte(#[trigger] bytes@[k]),
    {
        let b = bytes[i];
        if !((97 <= b && b <= 122) || (48 <= b && b <= 57) || b == 45 || b == 95) {
            return false;
        }
    }
    true
}

/// A custom key as typed: nothing (`Ok(None)`) where it is blank, the trimmed
/// key where that is valid, else the error `invalid_key`.
pub fn normalize_custom_key(value: &str) -> (r: Result<Option<String>, &'static str>)
    ensures
        trim(value@).len() == 0 ==> r is Ok && r->Ok_0 is None,
        trim(value@).len() != 0 && !valid_custom_key(trim(value@)) ==> r is Err && r->Err_0@
            == "invalid_key"@,
        trim(value@).len() != 0 && valid_custom_key(trim(value@)) ==> r is Ok && r->Ok_0 is Some
            && r->Ok_0->Some_0@ == trim(value@),
{
    let v = chars_of(value);
    let (start, end) = trim_bounds(&v);
    if start == end {
        return Ok(None);
    }
    let key = string_from_range(&v, start, end);
    if !is_valid_custom_key(key.as_str()) {
        return Err("invalid_key");
    }
    Ok(Some(key))
}

impl Pasta {
    /// The key this pasta is known by: its custom key where that is valid,
    /// else the key generated from its id.
    pub fn public_key<F: Fn(u64) -> String>(&self, encode: &F) -> (r: String)
        requires
            is_key_encoder(*encode),
        ensures
            r@ == public_key_of(*self, *encode),
    {
        match &self.custom_key {
            Some(key) => {
                if is_valid_custom_key(key.as_str()) {
                    key.clone()
                } else {
                    self.id_as_animals(encode)
                }
            },
            None => self.id_as_animals(encode),
        }
    }

    /// The key generated from this pasta's id.
    pub fn id_as_animals<F: Fn(u64) -> String>(&self, encode: &F) -> (r: String)
        requires
            is_key_encoder(*encode),
        ensures
            r@ == encoded_key(*encode, self.id),
    {
        encode_id(encode, self.id)
    }
}

/// The position of the first pasta known by `key`.
pub fn find_by_key<F: Fn(u64) -> String>(pastas: &[Pasta], key: &str, encode: &F) -> (r: Option<
    usize,
>)
    requires
        is_key_encoder(*encode),
    ensures
        match r {
            Some(i) => i < pastas@.len() && has_key(pastas@[i as int], key@, *encode) && forall|
                j: int,
            | 0 <= j < i ==> !has_key(#[trigger] pastas@[j], key@, *encode),
            None => key_free(pastas@, key@, *encode),
        },
        match key_position(pastas@, key@, *encode) {
            Some(i) => r is Some && r->Some_0 == i,
            None => r is None,
        },
{
    let n = pastas.len();
    for i in 0..n
        invariant
            n == pastas@.len(),
            is_key_encoder(*encode),
            forall|j: int| 0 <= j < i ==> !has_key(#[trigger] pastas@[j], key@, *encode),
    {
        let k = pastas[i].public_key(encode);
        if str_eq(k.as_str(), key) {
            proof {
                let p = key_position(pastas@, key@, *encode);
                assert(has_key(pastas@[i as int], key@, *encode));
                let c = p->0;
                if c < i {
                } else if c > i {
                    assert(!has_key(pastas@[i as int], key@, *encode));
                }
            }
            return Some(i);
        }
    }
    None
}

/// Whether no pasta is known by `key` yet.
pub fn key_is_available<F: Fn(u64) -> String>(pastas: &[Pasta], key: &str, encode: &F) -> (r:
    bool)
    requires
        is_key_encoder(*encode),
    ensures
        r == key_free(pastas@, key@, *encode),
{
    find_by_key(pastas, key, encode).is_none()
}

/// The earliest and latest moments, in seconds since the Unix epoch, for
/// which `DateTime::from_timestamp` gives a date (the first and last second of
/// chrono's calendar; a test holds them to chrono itself).
pub const LOCAL_TIME_MIN: i64 = -8334601228800i64;

pub const LOCAL_TIME_MAX: i64 = 8210266876799i64;

/// The month and day of the proleptic Gregorian date `days` days after
/// 1970-01-01 (negative for earlier dates).
pub open spec fn civil_month_day(days: int) -> (int, int) {
    let z = days + 719468;
    let era = z / 146097;
    let doe = z - era * 146097;
    let yoe = (doe - doe / 1460 + doe / 36524 - doe / 146096) / 365;
    let doy = doe - (365 * yoe + yoe / 4 - yoe / 100);
    let mp = (5 * doy + 2) / 153;
    let day = doy - (153 * mp + 2) / 5 + 1;
    let month = if mp < 10 {
        mp + 3
    } else {
        mp - 9
    };
    (month, day)
}

/// Month, day, hour and minute of the calendar time `t` seconds after
/// 1970-01-01 00:00 (no time zone applied).
pub open spec fn calendar_fields(t: int) -> (int, int, int, int) {
    let days = t / 86400;
    let second_of_day = t % 86400;
    let (month, day) = civil_month_day(days);
    (month, day, second_of_day / 3600, (second_of_day % 3600) / 60)
}

/// Whether `stamp` is the local time `secs` shown as "MM-DD hh:mm", for a
/// local offset of less than a day either way.
pub open spec fn local_stamp_with_offset(stamp: Seq<char>, secs: int, offset: int) -> bool {
    -86400 < offset < 86400 && stamp == calendar_stamp(secs + offset)
}

/// "MM-DD hh:mm" of the calendar time `t`.
pub open spec fn calendar_stamp(t: int) -> Seq<char> {
    let f = calendar_fields(t);
    clock_stamp(f.0 as nat, f.1 as nat, f.2 as nat, f.3 as nat)
}

/// Whether `fields` (month, day, hour, minute) are those of the calendar time
/// `secs + offset`, with an offset of less than a day either way.
pub open spec fn local_offset_fields(secs: int, offset: int, fields: (u32, u32, u32, u32)) -> bool {
    &&& -86400 < offset < 86400
    &&& calendar_fields(secs + offset) == (
        fields.0 as int,
        fields.1 as int,
        fields.2 as int,
        fields.3 as int,
    )
}

/// Calls `chrono::TimeZone::timestamp` for `Local` and reads the month, day,
/// hour and minute of the result.
/// Claims what chrono's source shows: the fields are those of the UTC time
/// `secs` plus the local offset, and that offset is less than a day either
/// way. Which offset it is depends on the machine's time zone and is left
/// open. `timestamp` panics outside the range required here.
#[verifier::external_body]
#[allow(deprecated)]
fn local_clock(secs: i64) -> (r: (u32, u32, u32, u32))
    requires
        LOCAL_TIME_MIN <= secs <= LOCAL_TIME_MAX,
    ensures
        1 <= r.0 <= 12,
        1 <= r.1 <= 31,
        r.2 <= 23,
        r.3 <= 59,
        exists|offset: int| local_offset_fields(secs as int, offset, r),
{
    let date = chrono::Local.timestamp(secs, 0);
    (date.month(), date.day(), date.hour(), date.minute())
}

/// Calls `SystemTime::now` and `duration_since(UNIX_EPOCH)`, giving the whole
/// seconds since the Unix epoch, or none for a clock set before it.
/// Nothing is claimed of the value.
#[verifier::external_body]
fn unix_seconds() -> (r: Option<u64>) {
    match SystemTime::now().duration_since(UNIX_EPOCH) {
        Ok(n) => Some(n.as_secs()),
        Err(_) => None,
    }
}

/// The clock in seconds since the Unix epoch, as a signed number (a count past
/// `i64::MAX` wraps as `as i64` does); zero for a clock set before the epoch.
fn unix_now() -> (r: i64) {
    match unix_seconds() {
        Some(seconds) => seconds as i64,
        None => 0,
    }
}

/// "MM-DD hh:mm", each field with two digits.
pub open spec fn clock_stamp(month: nat, day: nat, hour: nat, minute: nat) -> Seq<char> {
    two_digits(month) + "-"@ + two_digits(day) + " "@ + two_digits(hour) + ":"@ + two_digits(
        minute,
    )
}

/// Shows a local time as "MM-DD hh:mm".
pub fn clock_text(month: u32, day: u32, hour: u32, minute: u32) -> (r: String)
    ensures
        r@ == clock_stamp(month as nat, day as nat, hour as nat, minute as nat),
{
    let mut r = String::new();
    push_two_digits(&mut r, month as u64);
    push_str(&mut r, "-");
    push_two_digits(&mut r, day as u64);
    push_str(&mut r, " ");
    push_two_digits(&mut r, hour as u64);
    push_str(&mut r, ":");
    push_two_digits(&mut r, minute as u64);
    r
}

/// The seconds from `last` to `now`, none where `last` is later, at most `i64::MAX`.
pub open spec fn elapsed_between(now: int, last: int) -> int {
    let d = now - last;
    if d < 0 {
        0
    } else if d > i64::MAX {
        i64::MAX as int
    } else {
        d
    }
}

/// `a / b` rounded toward zero, as Rust's integer division does.
pub open spec fn div_toward_zero(a: int, b: int) -> int {
    if a >= 0 {
        a / b
    } else {
        -((-a) / b)
    }
}

/// The whole days from `last` to `now` (negative where `last` is later),
/// cut to sixteen bits as `as u16` does.
pub open spec fn days_between(now: int, last: int) -> u16 {
    (div_toward_zero(now - last, 86400) % 65536) as u16
}

/// How long ago a read that is `elapsed` seconds old was: days where more
/// than one, else hours, minutes or seconds where more than one, else "just now";
/// each count cut to sixteen bits.
pub open spec fn time_ago_text(elapsed: nat) -> Seq<char> {
    let days = (elapsed / 86400) % 65536;
    let hours = (elapsed / 3600) % 65536;
    let minutes = (elapsed / 60) % 65536;
    let seconds = elapsed % 65536;
    if days > 1 {
        decimal(days) + " days ago"@
    } else if hours > 1 {
        decimal(hours) + " hours ago"@
    } else if minutes > 1 {
        decimal(minutes) + " minutes ago"@
    } else if seconds > 1 {
        decimal(seconds) + " seconds ago"@
    } else {
        "just now"@
    }
}

/// The seconds from `last_read` to `now`, never negative.
pub fn elapsed_seconds(now: i64, last_read: i64) -> (r: i64)
    ensures
        r == elapsed_between(now as int, last_read as int),
{
    let d: i128 = now as i128 - last_read as i128;
    if d < 0 {
        0
    } else if d > i64::MAX as i128 {
        i64::MAX
    } else {
        d as i64
    }
}

/// The whole days from `last_read` to `now`, cut to sixteen bits.
pub fn days_since(now: i64, last_read: i64) -> (r: u16)
    ensures
        r == days_between(now as int, last_read as int),
{
    let d: i128 = now as i128 - last_read as i128;
    if d >= 0 {
        let q: u128 = (d as u128) / 86400;
        (q % 65536) as u16
    } else {
        let q: u128 = ((-d) as u128) / 86400;
        let m: u128 = q % 65536;
        if m == 0 {
            0
        } else {
            (65536 - m) as u16
        }
    }
}

/// How long ago a read that is `elapsed` seconds old was.
pub fn time_ago(elapsed: i64) -> (r: String)
    requires
        elapsed >= 0,
    ensures
        r@ == time_ago_text(elapsed as nat),
{
    let e: u64 = elapsed as u64;
    let days: u64 = (e / 86400) % 65536;
    let hours: u64 = (e / 3600) % 65536;
    let minutes: u64 = (e / 60) % 65536;
    let seconds: u64 = e % 65536;
    let mut r = String::new();
    if days > 1 {
        push_decimal(&mut r, days);
        push_str(&mut r, " days ago");
    } else if hours > 1 {
        push_decimal(&mut r, hours);
        push_str(&mut r, " hours ago");
    } else if minutes > 1 {
        push_decimal(&mut r, minutes);
        push_str(&mut r, " minutes ago");
    } else if seconds > 1 {
        push_decimal(&mut r, seconds);
        push_str(&mut r, " seconds ago");
    } else {
        push_str(&mut r, "just now");
    }
    r
}

/// The characters of a text escaped for a JavaScript template literal:
/// a backslash before every backtick and every dollar sign.
pub open spec fn template_escaped(s: Seq<char>) -> Seq<char>
    decreases s.len(),
{
    if s.len() == 0 {
        Seq::empty()
    } else {
        template_escaped(s.drop_last()) + if s.last() == '`' {
            seq!['\\', '`']
        } else if s.last() == '$' {
            seq!['\\', '$']
        } else {
            seq![s.last()]
        }
    }
}

/// A text escaped for HTML: `&`, `<` and `>` written as `&amp;`, `&lt;` and `&gt;`.
pub open spec fn html_text_escaped(s: Seq<char>) -> Seq<char>
    decreases s.len(),
{
    if s.len() == 0 {
        Seq::empty()
    } else {
        html_text_escaped(s.drop_last()) + if s.last() == '&' {
            "&amp;"@
        } else if s.last() == '<' {
            "&lt;"@
        } else if s.last() == '>' {
            "&gt;"@
        } else {
            seq![s.last()]
        }
    }
}

/// Calls `html_escape::encode_text`.
/// Claims what its source shows: `&`, `<` and `>` are replaced by their
/// entities and every other character is kept.
#[verifier::external_body]
fn encode_html_text(text: &str) -> (r: String)
    ensures
        r@ == html_text_escaped(text@),
{
    html_escape::encode_text(text).into_owned()
}

impl Pasta {
    /// When the pasta was created, as "MM-DD hh:mm" in local time: the
    /// calendar fields of the creation time moved by the local offset.
    pub fn created_as_string(&self) -> (r: String)
        requires
            LOCAL_TIME_MIN <= self.created <= LOCAL_TIME_MAX,
        ensures
            exists|offset: int| local_stamp_with_offset(r@, self.created as int, offset),
    {
        local_stamp(self.created)
    }

    /// When the pasta expires, as "MM-DD hh:mm" in local time, or "Never".
    pub fn expiration_as_string(&self) -> (r: String)
        requires
            self.expiration == 0 || LOCAL_TIME_MIN <= self.expiration <= LOCAL_TIME_MAX,
        ensures
            self.expiration == 0 ==> r@ == "Never"@,
            self.expiration != 0 ==> exists|offset: int|
                local_stamp_with_offset(r@, self.expiration as int, offset),
    {
        if self.expiration == 0 {
            "Never".to_owned()
        } else {
            local_stamp(self.expiration)
        }
    }

    /// How long ago the pasta was last read, by the clock.
    pub fn last_read_time_ago_as_string(&self) -> (r: String)
        ensures
            exists|now: i64|
                r@ == time_ago_text(elapsed_between(now as int, self.last_read as int) as nat),
    {
        let now = unix_now();
        let elapsed = elapsed_seconds(now, self.last_read);
        time_ago(elapsed)
    }

    /// The seconds since the pasta was last read, by the clock; never negative.
    pub fn last_read_elapsed_seconds(&self) -> (r: i64)
        ensures
            exists|now: i64| r == elapsed_between(now as int, self.last_read as int),
    {
        let now = unix_now();
        elapsed_seconds(now, self.last_read)
    }

    /// The whole days since the pasta was last read, by the clock, cut to sixteen bits.
    pub fn last_read_days_ago(&self) -> (r: u16)
        ensures
            exists|now: i64| r == days_between(now as int, self.last_read as int),
    {
        let now = unix_now();
        days_since(now, self.last_read)
    }

    /// The content, escaped to stand in a JavaScript template literal inside HTML.
    pub fn content_escaped(&self) -> (r: String)
        ensures
            r@ == html_text_escaped(template_escaped(self.content@)),
    {
        let escaped = escape_for_template(self.content.as_str());
        encode_html_text(escaped.as_str())
    }
}

/// The local time `secs` as "MM-DD hh:mm".
fn local_stamp(secs: i64) -> (r: String)
    requires
        LOCAL_TIME_MIN <= secs <= LOCAL_TIME_MAX,
    ensures
        exists|offset: int| local_stamp_with_offset(r@, secs as int, offset),
{
    let (month, day, hour, minute) = local_clock(secs);
    let r = clock_text(month, day, hour, minute);
    proof {
        let offset = choose|offset: int|
            local_offset_fields(secs as int, offset, (month, day, hour, minute));
        assert(local_stamp_with_offset(r@, secs as int, offset));
    }
    r
}

/// `text` with a backslash before every backtick and every dollar sign.
pub fn escape_for_template(text: &str) -> (r: String)
    ensures
        r@ == template_escaped(text@),
{
    let v = chars_of(text);
    let n = v.len();
    let mut r = String::new();
    assert(v@.take(0) == Seq::<char>::empty());
    for i in 0..n
        invariant
            n == v@.len(),
            r@ == template_escaped(v@.take(i as int)),
    {
        let c = v[i];
        if c == '`' || c == '$' {
            push_char(&mut r, '\\');
        }
        push_char(&mut r, c);
        assert(v@.take(i + 1).drop_last() == v@.take(i as int));
        assert(r@ == template_escaped(v@.take(i + 1)));
    }
    assert(v@.take(n as int) == v@);
    r
}

} // verus!
