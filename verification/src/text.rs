use vstd::prelude::*;

verus! {

/// `String::push`: appends a character to the end of a string.
#[verifier::external_body]
pub(crate) fn push_char(s: &mut String, c: char)
    ensures
        final(s)@ == old(s)@.push(c),
{
    s.push(c);
}

/// The character of a decimal digit.
pub open spec fn digit_char(d: int) -> char {
    if d == 0 {
        '0'
    } else if d == 1 {
        '1'
    } else if d == 2 {
        '2'
    } else if d == 3 {
        '3'
    } else if d == 4 {
        '4'
    } else if d == 5 {
        '5'
    } else if d == 6 {
        '6'
    } else if d == 7 {
        '7'
    } else if d == 8 {
        '8'
    } else {
        '9'
    }
}

/// The decimal digits of `n`, without leading zeros (`"0"` for zero), as `{}` prints them.
pub open spec fn decimal(n: nat) -> Seq<char>
    decreases n,
{
    if n < 10 {
        seq![digit_char(n as int)]
    } else {
        decimal(n / 10).push(digit_char((n % 10) as int))
    }
}

/// `n` in decimal with a minus sign when negative, as `{}` prints an integer.
pub open spec fn signed_decimal(n: int) -> Seq<char> {
    if n < 0 {
        seq!['-'] + decimal((-n) as nat)
    } else {
        decimal(n as nat)
    }
}

/// `n` in decimal padded with a leading zero to at least two digits, as `{:02}` prints it.
pub open spec fn two_digits(n: nat) -> Seq<char> {
    if n < 10 {
        seq!['0', digit_char(n as int)]
    } else {
        decimal(n)
    }
}

/// A time in seconds as minutes and seconds, both padded to two digits (`"03:07"`).
pub open spec fn timestamp(secs: nat) -> Seq<char> {
    two_digits(secs / 60) + seq![':'] + two_digits(secs % 60)
}

/// A duration in seconds as minutes and two-digit seconds (`"3:07"`).
pub open spec fn track_duration(secs: nat) -> Seq<char> {
    decimal(secs / 60) + seq![':'] + two_digits(secs % 60)
}

fn digit(d: u64) -> (c: char)
    requires
        d < 10,
    ensures
        c == digit_char(d as int),
{
    match d {
        0 => '0',
        1 => '1',
        2 => '2',
        3 => '3',
        4 => '4',
        5 => '5',
        6 => '6',
        7 => '7',
        8 => '8',
        _ => '9',
    }
}

/// Appends the decimal digits of `n`.
pub(crate) fn push_decimal(s: &mut String, n: u64)
    ensures
        final(s)@ == old(s)@ + decimal(n as nat),
    decreases n,
{
    if n < 10 {
        push_char(s, digit(n));
        assert(old(s)@.push(digit_char(n as int)) =~= old(s)@ + decimal(n as nat));
    } else {
        push_decimal(s, n / 10);
        let ghost mid = s@;
        push_char(s, digit(n % 10));
        assert(s@ =~= old(s)@ + decimal(n as nat));
    }
}

/// Appends `n` in decimal, with a minus sign when it is negative.
pub(crate) fn push_signed_decimal(s: &mut String, n: i64)
    ensures
        final(s)@ == old(s)@ + signed_decimal(n as int),
{
    if n < 0 {
        push_char(s, '-');
        let magnitude: u64 = if n == i64::MIN {
            9223372036854775808u64
        } else {
            (-n) as u64
        };
        push_decimal(s, magnitude);
        assert(s@ =~= old(s)@ + signed_decimal(n as int));
    } else {
        push_decimal(s, n as u64);
    }
}

/// Appends `n` padded to two digits.
pub(crate) fn push_two_digits(s: &mut String, n: u64)
    ensures
        final(s)@ == old(s)@ + two_digits(n as nat),
{
    if n < 10 {
        push_char(s, '0');
        push_char(s, digit(n));
        assert(s@ =~= old(s)@ + two_digits(n as nat));
    } else {
        push_decimal(s, n);
    }
}

/// Appends the characters of `t`.
pub(crate) fn push_str(s: &mut String, t: &str)
    ensures
        final(s)@ == old(s)@ + t@,
{
    let n = vstd::string::StrSliceExecFns::unicode_len(t);
    let mut i: usize = 0;
    while i < n
        invariant
            n == t@.len(),
            0 <= i <= n,
            s@ == old(s)@ + t@.take(i as int),
        decreases n - i,
    {
        let c = vstd::string::StrSliceExecFns::get_char(t, i);
        push_char(s, c);
        assert(t@.take(i + 1) == t@.take(i as int).push(c));
        i = i + 1;
    }
    assert(t@.take(n as int) == t@);
}

/// A playback position as `mm:ss`, both parts padded to two digits.
pub fn format_timestamp(secs: u64) -> (r: String)
    ensures
        r@ == timestamp(secs as nat),
{
    let mut r = String::new();
    push_two_digits(&mut r, secs / 60);
    push_char(&mut r, ':');
    push_two_digits(&mut r, secs % 60);
    assert(r@ =~= timestamp(secs as nat));
    r
}

/// The time left to play, as `-mm:ss`.
pub fn format_remaining(position: u64, duration: u64) -> (r: String)
    requires
        position <= duration,
    ensures
        r@ == seq!['-'] + timestamp((duration - position) as nat),
{
    let mut r = String::new();
    push_char(&mut r, '-');
    let remaining = duration - position;
    push_two_digits(&mut r, remaining / 60);
    push_char(&mut r, ':');
    push_two_digits(&mut r, remaining % 60);
    assert(r@ =~= seq!['-'] + timestamp((duration - position) as nat));
    r
}

/// A track's length as `m:ss`.
pub fn format_track_duration(secs: u64) -> (r: String)
    ensures
        r@ == track_duration(secs as nat),
{
    let mut r = String::new();
    push_decimal(&mut r, secs / 60);
    push_char(&mut r, ':');
    push_two_digits(&mut r, secs % 60);
    assert(r@ =~= track_duration(secs as nat));
    r
}

/// The asset path of an album's thumbnail.
pub open spec fn album_thumbnail_path(id: int) -> Seq<char> {
    "!db://album/"@ + signed_decimal(id) + "/thumb"@
}

pub fn format_album_thumbnail_path(id: i64) -> (r: String)
    ensures
        r@ == album_thumbnail_path(id as int),
{
    let mut r = String::new();
    push_str(&mut r, "!db://album/");
    push_signed_decimal(&mut r, id);
    push_str(&mut r, "/thumb");
    assert(r@ =~= album_thumbnail_path(id as int));
    r
}

/// The hover group of a track row.
pub open spec fn track_hover_group(id: int) -> Seq<char> {
    "track-"@ + signed_decimal(id)
}

pub fn format_track_hover_group(id: i64) -> (r: String)
    ensures
        r@ == track_hover_group(id as int),
{
    let mut r = String::new();
    push_str(&mut r, "track-");
    push_signed_decimal(&mut r, id);
    r
}

/// The release line of an album: its label and catalog number, joined by a bullet when both
/// are known.
pub open spec fn release_info(label: Option<Seq<char>>, catalog_number: Option<Seq<char>>) -> Seq<
    char,
> {
    let a = match label {
        Some(l) => l,
        None => Seq::empty(),
    };
    let b = if label is Some && catalog_number is Some {
        " \u{2022} "@
    } else {
        Seq::empty()
    };
    let c = match catalog_number {
        Some(n) => n,
        None => Seq::empty(),
    };
    a + b + c
}

pub fn format_release_info(label: &Option<String>, catalog_number: &Option<String>) -> (r: String)
    ensures
        r@ == release_info(
            match label {
                Some(l) => Some(l@),
                None => None,
            },
            match catalog_number {
                Some(n) => Some(n@),
                None => None,
            },
        ),
{
    let mut info = String::new();
    if let Some(l) = label {
        push_str(&mut info, l.as_str());
    }
    if label.is_some() && catalog_number.is_some() {
        push_str(&mut info, " \u{2022} ");
    }
    if let Some(n) = catalog_number {
        push_str(&mut info, n.as_str());
    }
    proof {
        let lv = match label {
            Some(l) => Some(l@),
            None => None,
        };
        let nv = match catalog_number {
            Some(n) => Some(n@),
            None => None,
        };
        assert(info@ =~= release_info(lv, nv));
    }
    info
}

/// The letter of a vinyl side: disc 1 is side A, disc 2 side B, and so on (the disc number
/// minus one is taken modulo 256, as a byte).
pub open spec fn vinyl_side_spec(disc: i64) -> int {
    65 + ((disc - 1) as u8) as int
}

pub fn vinyl_side(disc: i64) -> (r: char)
    requires
        disc > i64::MIN,
        ((disc - 1) as u8) <= 190,
    ensures
        r as int == vinyl_side_spec(disc),
{
    let offset: u8 = (disc - 1) as u8;
    let code: u8 = 65u8 + offset;
    code as char
}

} // verus!
