use vstd::prelude::*;
use vstd::string::StrSliceExecFns;
use url::Url;
use crate::text::{album_thumbnail_path, decimal, digit_char, signed_decimal};

verus! {

/// The host of the URL that `url::Url::parse` reads from a text, if the text parses and the
/// URL has a host.
pub uninterp spec fn url_host_spec(text: Seq<char>) -> Option<Seq<char>>;

/// The slash-separated path segments of the URL that `url::Url::parse` reads from a text, if
/// the text parses and the URL can be a base.
pub uninterp spec fn url_segments_spec(text: Seq<char>) -> Option<Seq<Seq<char>>>;

/// `Url::parse` followed by `Url::host_str`: the host of the URL written in `text`; nothing
/// when the text is not a URL or the URL has no host.
#[verifier::external_body]
fn url_host(text: &str) -> (r: Option<String>)
    ensures
        match r {
            Some(h) => url_host_spec(text@) == Some(h@),
            None => url_host_spec(text@) is None,
        },
{
    Url::parse(text).ok()?.host_str().map(|h| h.to_string())
}

/// `Url::parse` followed by `Url::path_segments`: the path segments of the URL written in
/// `text`, in order; nothing when the text is not a URL or the URL cannot be a base.
#[verifier::external_body]
fn url_segments(text: &str) -> (r: Option<Vec<String>>)
    ensures
        match r {
            Some(v) => url_segments_spec(text@) == Some(v@.map_values(|s: String| s@)),
            None => url_segments_spec(text@) is None,
        },
{
    Url::parse(text).ok()?.path_segments().map(|segments| segments.map(|s| s.to_string()).collect())
}

pub open spec fn is_digit(c: char) -> bool {
    '0' <= c && c <= '9'
}

pub open spec fn digit_value(c: char) -> nat {
    (c as u32 - '0' as u32) as nat
}

/// The value of a string of decimal digits.
pub open spec fn digits_value(ds: Seq<char>) -> nat
    decreases ds.len(),
{
    if ds.len() == 0 {
        0
    } else {
        digits_value(ds.drop_last()) * 10 + digit_value(ds.last())
    }
}

/// The text after an optional leading sign.
pub open spec fn unsigned_part(s: Seq<char>) -> Seq<char> {
    if s.len() > 0 && (s[0] == '-' || s[0] == '+') {
        s.skip(1)
    } else {
        s
    }
}

pub open spec fn all_digits(ds: Seq<char>) -> bool {
    forall|i: int| 0 <= i < ds.len() ==> is_digit(#[trigger] ds[i])
}

/// What `str::parse::<i64>` reads from a text: an optional sign and at least one decimal
/// digit, nothing else, and a value that fits in an `i64`.
pub open spec fn parse_i64_spec(s: Seq<char>) -> Option<i64> {
    let body = unsigned_part(s);
    if s.len() == 0 || body.len() == 0 || !all_digits(body) {
        None
    } else {
        let v: int = if s[0] == '-' {
            -digits_value(body)
        } else {
            digits_value(body) as int
        };
        if i64::MIN <= v <= i64::MAX {
            Some(v as i64)
        } else {
            None
        }
    }
}

proof fn lemma_digits_value_grows(ds: Seq<char>, c: char)
    ensures
        digits_value(ds.push(c)) == digits_value(ds) * 10 + digit_value(c),
        digits_value(ds.push(c)) >= digits_value(ds),
{
    assert(ds.push(c).drop_last() == ds);
}

proof fn lemma_digits_value_prefix(ds: Seq<char>, n: int)
    requires
        0 <= n <= ds.len(),
    ensures
        digits_value(ds.take(n)) <= digits_value(ds),
    decreases ds.len() - n,
{
    if n < ds.len() {
        lemma_digits_value_prefix(ds, n + 1);
        assert(ds.take(n + 1) == ds.take(n).push(ds[n]));
        lemma_digits_value_grows(ds.take(n), ds[n]);
    } else {
        assert(ds.take(n) == ds);
    }
}

/// Reads a decimal `i64`, as `str::parse::<i64>` does.
pub fn parse_i64(s: &str) -> (r: Option<i64>)
    ensures
        r == parse_i64_spec(s@),
{
    let n = s.unicode_len();
    if n == 0 {
        return None;
    }
    let first = s.get_char(0);
    let neg = first == '-';
    let start: usize = if first == '-' || first == '+' {
        1
    } else {
        0
    };
    let ghost body = unsigned_part(s@);
    assert(start == 0 ==> body == s@);
    if start >= n {
        return None;
    }
    let mut acc: u64 = 0;
    let mut i: usize = start;
    while i < n
        invariant
            n == s@.len(),
            start <= i <= n,
            start < n,
            start == 0 || start == 1,
            first == s@[0],
            neg == (first == '-'),
            start == 1 <==> (first == '-' || first == '+'),
            body == unsigned_part(s@),
            body == s@.skip(start as int),
            forall|j: int| 0 <= j < i - start ==> is_digit(#[trigger] body[j]),
            acc == digits_value(body.take(i - start)),
        decreases n - i,
    {
        let c = s.get_char(i);
        assert(c == body[i - start]);
        if !('0' <= c && c <= '9') {
            assert(!is_digit(body[i - start]));
            assert(body.len() > 0);
            assert(!all_digits(body));
            return None;
        }
        let d: u64 = (c as u32 - '0' as u32) as u64;
        proof {
            assert(body.take(i - start + 1) == body.take(i - start).push(c));
            lemma_digits_value_grows(body.take(i - start), c);
        }
        if acc > (u64::MAX - d) / 10 {
            proof {
                assert(acc * 10 + d > u64::MAX) by (nonlinear_arith)
                    requires
                        acc > (u64::MAX - d) / 10,
                        d <= 9,
                ;
                if all_digits(body) {
                    lemma_digits_value_prefix(body, i - start + 1);
                    assert(digits_value(body) > u64::MAX);
                }
            }
            return None;
        }
        acc = acc * 10 + d;
        i = i + 1;
    }
    assert(body.take(n - start) == body);
    if neg {
        if acc <= 9223372036854775808u64 {
            if acc == 9223372036854775808u64 {
                Some(i64::MIN)
            } else {
                Some(-(acc as i64))
            }
        } else {
            None
        }
    } else {
        if acc <= 9223372036854775807u64 {
            Some(acc as i64)
        } else {
            None
        }
    }
}

/// Which picture of an album an asset names.
#[derive(Clone, Copy, Debug, PartialEq, Eq, Structural)]
pub enum AlbumImage {
    Thumb,
    Full,
}

/// A picture of an album from the library database.
#[derive(Clone, Copy, Debug, PartialEq, Eq, Structural)]
pub struct AssetRequest {
    pub album_id: i64,
    pub image: AlbumImage,
}

/// Why an asset URL names no picture.
#[derive(Clone, Copy, Debug, PartialEq, Eq, Structural)]
pub enum AssetError {
    MissingTableName,
    MissingPath,
    MissingId,
    InvalidId,
    MissingImageType,
    /// An image type other than `thumb` and `full`.
    UnsupportedImageType,
}

/// Whether the URL parts name an album picture of a type that is neither `thumb` nor `full`.
pub open spec fn unsupported_image(host: Option<Seq<char>>, segments: Option<Seq<Seq<char>>>) -> bool {
    host == Some("album"@) && match segments {
        Some(segs) => segs.len() >= 2 && parse_i64_spec(segs[0]) is Some && segs[1] != "thumb"@
            && segs[1] != "full"@,
        None => false,
    }
}

/// The picture an asset URL names, from its host and path segments: the host names the
/// table (only `album` has pictures; any other names nothing), the first segment the album id
/// and the second the picture (`thumb` or `full`).
pub open spec fn resolve_spec(host: Option<Seq<char>>, segments: Option<Seq<Seq<char>>>) -> Result<
    Option<AssetRequest>,
    AssetError,
> {
    match host {
        None => Err(AssetError::MissingTableName),
        Some(h) => if h != "album"@ {
            Ok(None)
        } else {
            match segments {
                None => Err(AssetError::MissingPath),
                Some(segs) => if segs.len() == 0 {
                    Err(AssetError::MissingId)
                } else {
                    match parse_i64_spec(segs[0]) {
                        None => Err(AssetError::InvalidId),
                        Some(id) => if segs.len() < 2 {
                            Err(AssetError::MissingImageType)
                        } else if segs[1] == "thumb"@ {
                            Ok(Some(AssetRequest { album_id: id, image: AlbumImage::Thumb }))
                        } else if segs[1] == "full"@ {
                            Ok(Some(AssetRequest { album_id: id, image: AlbumImage::Full }))
                        } else {
                            Err(AssetError::UnsupportedImageType)
                        },
                    }
                },
            }
        },
    }
}

pub open spec fn string_opt_view(s: Option<String>) -> Option<Seq<char>> {
    match s {
        Some(x) => Some(x@),
        None => None,
    }
}

pub open spec fn segments_view(s: Option<Vec<String>>) -> Option<Seq<Seq<char>>> {
    match s {
        Some(v) => Some(v@.map_values(|x: String| x@)),
        None => None,
    }
}

/// Decides which picture a URL's host and path segments name. A picture type other than
/// `thumb` and `full` is left out: the asset loader panics on it.
pub fn resolve_asset(host: Option<String>, segments: Option<Vec<String>>) -> (r: Result<
    Option<AssetRequest>,
    AssetError,
>)
    requires
        !unsupported_image(string_opt_view(host), segments_view(segments)),
    ensures
        r == resolve_spec(string_opt_view(host), segments_view(segments)),
{
    proof {
        reveal_strlit("album");
        reveal_strlit("thumb");
        reveal_strlit("full");
    }
    match host {
        None => Err(AssetError::MissingTableName),
        Some(h) => {
            let album = String::from_str("album");
            if h != album {
                return Ok(None);
            }
            match segments {
                None => Err(AssetError::MissingPath),
                Some(segs) => {
                    if segs.len() == 0 {
                        return Err(AssetError::MissingId);
                    }
                    let ghost sv = segs@.map_values(|x: String| x@);
                    assert(sv[0] == segs@[0]@);
                    match parse_i64(segs[0].as_str()) {
                        None => Err(AssetError::InvalidId),
                        Some(id) => {
                            if segs.len() < 2 {
                                return Err(AssetError::MissingImageType);
                            }
                            assert(sv[1] == segs@[1]@);
                            let thumb = String::from_str("thumb");
                            let full = String::from_str("full");
                            if segs[1] == thumb {
                                Ok(Some(AssetRequest { album_id: id, image: AlbumImage::Thumb }))
                            } else if segs[1] == full {
                                Ok(Some(AssetRequest { album_id: id, image: AlbumImage::Full }))
                            } else {
                                Err(AssetError::UnsupportedImageType)
                            }
                        },
                    }
                },
            }
        },
    }
}

/// The picture an asset URL names, read with the `url` crate. Where the asset loader would
/// panic (a picture type other than `thumb` and `full`), this answers
/// `UnsupportedImageType`.
pub fn asset_request(url: &str) -> (r: Result<Option<AssetRequest>, AssetError>)
    ensures
        r == resolve_spec(url_host_spec(url@), url_segments_spec(url@)),
{
    let host = url_host(url);
    let segments = url_segments(url);
    proof {
        reveal_strlit("album");
        reveal_strlit("thumb");
        reveal_strlit("full");
    }
    let album = String::from_str("album");
    let is_album = match &host {
        Some(h) => *h == album,
        None => false,
    };
    if is_album {
        if let Some(segs) = &segments {
            if segs.len() >= 2 {
                let ghost sv = segs@.map_values(|x: String| x@);
                assert(sv[0] == segs@[0]@);
                assert(sv[1] == segs@[1]@);
                let thumb = String::from_str("thumb");
                let full = String::from_str("full");
                if parse_i64(segs[0].as_str()).is_some() && segs[1] != thumb && segs[1] != full {
                    return Err(AssetError::UnsupportedImageType);
                }
            }
        }
    }
    resolve_asset(host, segments)
}

/// The picture a query gave: none when the library stores no bytes for it.
pub fn loaded_image(image: Vec<u8>) -> (r: Option<Vec<u8>>)
    ensures
        image@.len() == 0 ==> r is None,
        image@.len() > 0 ==> r == Some(image),
{
    if image.len() == 0 {
        None
    } else {
        Some(image)
    }
}

/// The decimal digits of a number are digits, begin with a digit, and read back as the number.
proof fn lemma_decimal_reads_back(n: nat)
    ensures
        decimal(n).len() > 0,
        all_digits(decimal(n)),
        is_digit(decimal(n)[0]),
        digits_value(decimal(n)) == n,
    decreases n,
{
    if n < 10 {
        assert(digit_value(digit_char(n as int)) == n);
        assert(decimal(n).drop_last() =~= Seq::<char>::empty());
        assert(digits_value(decimal(n)) == digits_value(decimal(n).drop_last()) * 10
            + digit_value(decimal(n).last()));
    } else {
        let q = n / 10;
        let d = (n % 10) as int;
        lemma_decimal_reads_back(q);
        let ds = decimal(q).push(digit_char(d));
        assert(decimal(n) == ds);
        assert(ds.drop_last() == decimal(q));
        assert(digit_value(digit_char(d)) == d);
        assert(ds.last() == digit_char(d));
        assert(digits_value(ds) == digits_value(decimal(q)) * 10 + digit_value(digit_char(d)));
        assert(q * 10 + d == n) by (nonlinear_arith)
            requires
                q == n / 10,
                d == n % 10,
        ;
        assert forall|i: int| 0 <= i < ds.len() implies is_digit(#[trigger] ds[i]) by {
            if i < ds.len() - 1 {
                assert(ds[i] == decimal(q)[i]);
            }
        }
        assert(ds[0] == decimal(q)[0]);
    }
}

/// What `str::parse::<i64>` reads from an `i64` printed in decimal is that number.
pub proof fn signed_decimal_reads_back(id: i64)
    ensures
        parse_i64_spec(signed_decimal(id as int)) == Some(id),
{
    if id < 0 {
        let n = (-(id as int)) as nat;
        lemma_decimal_reads_back(n);
        let s = signed_decimal(id as int);
        assert(s == seq!['-'] + decimal(n));
        assert(unsigned_part(s) =~= decimal(n));
    } else {
        lemma_decimal_reads_back(id as nat);
        assert(unsigned_part(signed_decimal(id as int)) == decimal(id as nat));
    }
}

/// The host and path of an album's thumbnail path, `!db://album/<id>/thumb`, name that
/// album's thumbnail: the host `album` with the segments `<id>` and `thumb` resolve to the
/// thumbnail of album `id`.
pub proof fn thumbnail_path_names_the_thumbnail(id: i64)
    ensures
        album_thumbnail_path(id as int) == "!db://album/"@ + signed_decimal(id as int) + "/thumb"@,
        resolve_spec(Some("album"@), Some(seq![signed_decimal(id as int), "thumb"@])) == Ok::<
            Option<AssetRequest>,
            AssetError,
        >(Some(AssetRequest { album_id: id, image: AlbumImage::Thumb })),
{
    signed_decimal_reads_back(id);
}

} // verus!
