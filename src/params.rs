use vstd::prelude::*;
use crate::credentials::{accept_user_key, is_user_key};
use crate::duration::{digits_value, is_digit};
use crate::utility::RepeatError;

verus! {

/// `s` cut at every `sep`: one more piece than there are separators, empty
/// pieces kept.
pub open spec fn split_spec(s: Seq<char>, sep: char) -> Seq<Seq<char>>
    decreases s.len(),
{
    if s.len() == 0 {
        seq![Seq::empty()]
    } else {
        let prev = split_spec(s.drop_last(), sep);
        if s.last() == sep {
            prev.push(Seq::empty())
        } else {
            prev.update(prev.len() - 1, prev.last().push(s.last()))
        }
    }
}

/// The index of the first `c` in `s`.
pub open spec fn first_index(s: Seq<char>, c: char) -> Option<int>
    decreases s.len(),
{
    if s.len() == 0 {
        None
    } else {
        match first_index(s.drop_last(), c) {
            Some(i) => Some(i),
            None => if s.last() == c {
                Some(s.len() - 1)
            } else {
                None
            },
        }
    }
}

/// A `key=value` piece cut at its first `=`; none without one.
pub open spec fn pair_spec(piece: Seq<char>) -> Option<(Seq<char>, Seq<char>)> {
    match first_index(piece, '=') {
        Some(i) => Some((piece.subrange(0, i), piece.subrange(i + 1, piece.len() as int))),
        None => None,
    }
}

/// The pairs of the pieces that hold a `=`, in order.
pub open spec fn pairs_spec(pieces: Seq<Seq<char>>) -> Seq<(Seq<char>, Seq<char>)>
    decreases pieces.len(),
{
    if pieces.len() == 0 {
        Seq::empty()
    } else {
        let rest = pairs_spec(pieces.drop_last());
        match pair_spec(pieces.last()) {
            Some(p) => rest.push(p),
            None => rest,
        }
    }
}

/// The `key=value` pairs of a query string, in order.
pub open spec fn query_pairs_spec(query: Seq<char>) -> Seq<(Seq<char>, Seq<char>)> {
    pairs_spec(split_spec(query, '&'))
}

/// The pieces as plain text.
pub open spec fn strings_view(v: Seq<String>) -> Seq<Seq<char>> {
    v.map_values(|s: String| s@)
}

/// The pairs as plain text.
pub open spec fn pairs_view(v: Seq<(String, String)>) -> Seq<(Seq<char>, Seq<char>)> {
    v.map_values(|p: (String, String)| (p.0@, p.1@))
}

proof fn lemma_split_nonempty(s: Seq<char>, sep: char)
    ensures
        split_spec(s, sep).len() >= 1,
    decreases s.len(),
{
    if s.len() > 0 {
        lemma_split_nonempty(s.drop_last(), sep);
    }
}

/// Cuts `s` at every `sep`, keeping empty pieces.
pub fn split_on(s: &str, sep: char) -> (r: Vec<String>)
    ensures
        strings_view(r@) == split_spec(s@, sep),
{
    let len = s.unicode_len();
    let mut pieces: Vec<String> = Vec::new();
    let mut start: usize = 0;
    let mut i: usize = 0;
    proof {
        assert(s@.subrange(0, 0) =~= Seq::<char>::empty());
        assert(strings_view(pieces@) =~= Seq::<Seq<char>>::empty());
        assert(split_spec(s@.subrange(0, 0), sep) == seq![Seq::<char>::empty()]);
        assert(strings_view(pieces@).push(s@.subrange(0, 0)) =~= seq![Seq::<char>::empty()]);
    }
    while i < len
        invariant
            len == s@.len(),
            start <= i <= len,
            strings_view(pieces@).push(s@.subrange(start as int, i as int)) == split_spec(
                s@.subrange(0, i as int),
                sep,
            ),
        decreases len - i,
    {
        let c = s.get_char(i);
        let ghost pre = s@.subrange(0, i as int + 1);
        proof {
            assert(pre.drop_last() =~= s@.subrange(0, i as int));
            assert(pre.last() == c);
            lemma_split_nonempty(pre.drop_last(), sep);
        }
        if c == sep {
            let ghost before = strings_view(pieces@);
            pieces.push(s.substring_char(start, i).to_owned());
            assert(strings_view(pieces@) =~= before.push(s@.subrange(start as int, i as int)));
            start = i + 1;
            assert(s@.subrange(start as int, i as int + 1) =~= Seq::<char>::empty());
            assert(strings_view(pieces@).push(s@.subrange(start as int, i as int + 1))
                =~= split_spec(pre, sep));
        } else {
            let ghost prev = split_spec(pre.drop_last(), sep);
            assert(prev.last() == s@.subrange(start as int, i as int));
            assert(s@.subrange(start as int, i as int).push(c) =~= s@.subrange(
                start as int,
                i as int + 1,
            ));
            assert(strings_view(pieces@).push(s@.subrange(start as int, i as int + 1))
                =~= split_spec(pre, sep));
        }
        i = i + 1;
    }
    pieces.push(s.substring_char(start, len).to_owned());
    assert(s@.subrange(0, len as int) =~= s@);
    assert(strings_view(pieces@) =~= split_spec(s@, sep));
    pieces
}

/// Cuts a `key=value` piece at its first `=`; `None` without one.
pub fn split_pair(piece: &str) -> (r: Option<(String, String)>)
    ensures
        match r {
            Some(p) => pair_spec(piece@) == Some((p.0@, p.1@)),
            None => pair_spec(piece@) is None,
        },
{
    let len = piece.unicode_len();
    let mut i: usize = 0;
    while i < len
        invariant
            len == piece@.len(),
            i <= len,
            first_index(piece@.subrange(0, i as int), '=') is None,
        decreases len - i,
    {
        let ghost pre = piece@.subrange(0, i as int + 1);
        proof {
            assert(pre.drop_last() =~= piece@.subrange(0, i as int));
        }
        if piece.get_char(i) == '=' {
            proof {
                lemma_first_index_extends(piece@, i as int + 1);
            }
            let key = piece.substring_char(0, i).to_owned();
            let value = piece.substring_char(i + 1, len).to_owned();
            return Some((key, value));
        }
        i = i + 1;
    }
    assert(piece@.subrange(0, len as int) =~= piece@);
    None
}

proof fn lemma_first_index_extends(s: Seq<char>, n: int)
    requires
        0 <= n <= s.len(),
        first_index(s.subrange(0, n), '=') is Some,
    ensures
        first_index(s, '=') == first_index(s.subrange(0, n), '='),
    decreases s.len() - n,
{
    if n < s.len() {
        let next = s.subrange(0, n + 1);
        assert(next.drop_last() =~= s.subrange(0, n));
        lemma_first_index_extends(s, n + 1);
    } else {
        assert(s.subrange(0, n) =~= s);
    }
}

/// The `key=value` pairs of a query string, in order; pieces without `=` are
/// left out.
pub fn query_pairs(query: &str) -> (r: Vec<(String, String)>)
    ensures
        pairs_view(r@) == query_pairs_spec(query@),
{
    let pieces = split_on(query, '&');
    let mut pairs: Vec<(String, String)> = Vec::new();
    let mut i: usize = 0;
    while i < pieces.len()
        invariant
            i <= pieces.len(),
            strings_view(pieces@) == split_spec(query@, '&'),
            pairs_view(pairs@) == pairs_spec(strings_view(pieces@).subrange(0, i as int)),
        decreases pieces.len() - i,
    {
        let ghost pre = strings_view(pieces@).subrange(0, i as int + 1);
        proof {
            assert(pre.drop_last() =~= strings_view(pieces@).subrange(0, i as int));
            assert(pre.last() == pieces@[i as int]@);
        }
        match split_pair(pieces[i].as_str()) {
            Some(p) => {
                pairs.push(p);
            },
            None => {},
        }
        assert(pairs_view(pairs@) =~= pairs_spec(pre));
        i = i + 1;
    }
    assert(strings_view(pieces@).subrange(0, pieces.len() as int) =~= strings_view(pieces@));
    pairs
}

/// The value of an ASCII hexadecimal digit, either case.
pub open spec fn hex_value(b: u8) -> Option<u8> {
    if 48 <= b <= 57 {
        Some((b - 48) as u8)
    } else if 65 <= b <= 70 {
        Some((b - 55) as u8)
    } else if 97 <= b <= 102 {
        Some((b - 87) as u8)
    } else {
        None
    }
}

/// `bytes` with every `%` followed by two hex digits replaced by the byte
/// they spell; every other byte, a `+` or a stray `%` included, stays.
pub open spec fn percent_decoded(bytes: Seq<u8>) -> Seq<u8>
    decreases bytes.len(),
{
    if bytes.len() == 0 {
        Seq::empty()
    } else if bytes[0] == 37 && bytes.len() >= 3 && hex_value(bytes[1]) is Some && hex_value(
        bytes[2],
    ) is Some {
        seq![(hex_value(bytes[1])->0 * 16 + hex_value(bytes[2])->0) as u8] + percent_decoded(
            bytes.subrange(3, bytes.len() as int),
        )
    } else {
        seq![bytes[0]] + percent_decoded(bytes.drop_first())
    }
}

/// The percent-decoding of the UTF-8 text `s`, read back as UTF-8; none where
/// the decoded bytes are not UTF-8.
pub open spec fn url_decoded(s: Seq<char>) -> Option<Seq<char>> {
    let decoded = percent_decoded(vstd::utf8::encode_utf8(s));
    if vstd::utf8::valid_utf8(decoded) {
        Some(vstd::utf8::decode_utf8(decoded))
    } else {
        None
    }
}

/// Relies on `urlencoding::decode`: `%XX` escapes become bytes, other bytes
/// stay, the result is checked to be UTF-8, and text without `%` comes back
/// as it is.
#[verifier::external_body]
fn url_decode(s: &str) -> (r: Option<String>)
    ensures
        match r {
            Some(d) => url_decoded(s@) == Some(d@),
            None => url_decoded(s@) is None,
        },
        !s@.contains('%') ==> r is Some && r->0@ == s@,
{
    match urlencoding::decode(s) {
        Ok(d) => Some(d.into_owned()),
        Err(_) => None,
    }
}

/// A decoded identifier is usable: it is neither empty nor `null`.
pub open spec fn is_usable_id(d: Seq<char>) -> bool {
    d.len() > 0 && d != "null"@
}

/// Whether a decoded identifier is usable: neither empty nor `null`.
pub fn accept_id(d: &str) -> (r: bool)
    ensures
        r == is_usable_id(d@),
{
    !d.is_empty() && d.to_owned() != "null".to_owned()
}

/// What the song and playlist endpoints read from a request.
#[derive(Debug)]
pub struct RequestParams {
    /// The Spotify identifier asked for.
    pub query: Option<String>,
    /// The user's own YouTube key.
    pub youtube_api_key: Option<String>,
    /// Whether the playlist answer states its length.
    pub give_length: bool,
}

/// The request's fields after the pairs, in order: the last usable `query`
/// (decoded, neither empty nor `null`), the last usable `youtubeAPIKEY`
/// (decoded, neither empty nor the default key), and whether the last
/// `give_length` is `yes`.
pub open spec fn params_spec(pairs: Seq<(Seq<char>, Seq<char>)>) -> (
    Option<Seq<char>>,
    Option<Seq<char>>,
    bool,
)
    decreases pairs.len(),
{
    if pairs.len() == 0 {
        (None, None, false)
    } else {
        let (q, k, g) = params_spec(pairs.drop_last());
        let (key, value) = pairs.last();
        if key == "query"@ {
            match url_decoded(value) {
                Some(d) if is_usable_id(d) => (Some(d), k, g),
                _ => (q, k, g),
            }
        } else if key == "youtubeAPIKEY"@ {
            match url_decoded(value) {
                Some(d) if is_user_key(d) => (q, Some(d), g),
                _ => (q, k, g),
            }
        } else if key == "give_length"@ {
            (q, k, value == "yes"@)
        } else {
            (q, k, g)
        }
    }
}

/// An optional text as plain characters.
pub open spec fn opt_view(o: Option<String>) -> Option<Seq<char>> {
    match o {
        Some(s) => Some(s@),
        None => None,
    }
}

/// Reads the song and playlist parameters from a query string; where the
/// query names no usable key, the key of the `X-YouTube-API-Key` header is
/// taken if it is neither empty nor the default key.
pub fn parse_request_params(query: &str, header_key: Option<String>) -> (r: RequestParams)
    ensures
        opt_view(r.query) == params_spec(query_pairs_spec(query@)).0,
        r.give_length == params_spec(query_pairs_spec(query@)).2,
        opt_view(r.youtube_api_key) == match params_spec(query_pairs_spec(query@)).1 {
            Some(k) => Some(k),
            None => match header_key {
                Some(h) if is_user_key(h@) => Some(h@),
                _ => None,
            },
        },
{
    let pairs = query_pairs(query);
    let mut song: Option<String> = None;
    let mut key: Option<String> = None;
    let mut give_length: bool = false;
    let mut i: usize = 0;
    while i < pairs.len()
        invariant
            i <= pairs.len(),
            pairs_view(pairs@) == query_pairs_spec(query@),
            (opt_view(song), opt_view(key), give_length) == params_spec(
                pairs_view(pairs@).subrange(0, i as int),
            ),
        decreases pairs.len() - i,
    {
        let ghost pre = pairs_view(pairs@).subrange(0, i as int + 1);
        proof {
            assert(pre.drop_last() =~= pairs_view(pairs@).subrange(0, i as int));
            assert(pre.last() == (pairs@[i as int].0@, pairs@[i as int].1@));
        }
        let name = pairs[i].0.as_str();
        let value = pairs[i].1.as_str();
        if name.to_owned() == "query".to_owned() {
            match url_decode(value) {
                Some(d) => if accept_id(d.as_str()) {
                    song = Some(d);
                },
                None => {},
            }
        } else if name.to_owned() == "youtubeAPIKEY".to_owned() {
            match url_decode(value) {
                Some(d) => if accept_user_key(d.as_str()) {
                    key = Some(d);
                },
                None => {},
            }
        } else if name.to_owned() == "give_length".to_owned() {
            give_length = value.to_owned() == "yes".to_owned();
        }
        i = i + 1;
    }
    assert(pairs_view(pairs@).subrange(0, pairs.len() as int) =~= pairs_view(pairs@));
    if key.is_none() {
        match header_key {
            Some(h) => if accept_user_key(h.as_str()) {
                key = Some(h);
            },
            None => {},
        }
    }
    RequestParams { query: song, youtube_api_key: key, give_length }
}

/// The digits of a decimal number, after an optional leading `+`.
pub open spec fn unsigned_digits(s: Seq<char>) -> Seq<char> {
    if s.len() > 0 && s[0] == '+' {
        s.subrange(1, s.len() as int)
    } else {
        s
    }
}

/// The `u32` a decimal text stands for: an optional `+`, then at least one
/// ASCII digit and nothing else, with a value that fits.
pub open spec fn u32_value(s: Seq<char>) -> Option<u32> {
    let d = unsigned_digits(s);
    if d.len() > 0 && (forall|i: int| 0 <= i < d.len() ==> is_digit(#[trigger] d[i]))
        && digits_value(d, 0, d.len() as int) <= u32::MAX {
        Some(digits_value(d, 0, d.len() as int) as u32)
    } else {
        None
    }
}

/// Reads a decimal `u32`, as the standard integer parser does.
pub fn parse_u32(s: &str) -> (r: Option<u32>)
    ensures
        r == u32_value(s@),
{
    let len = s.unicode_len();
    let start: usize = if len > 0 && s.get_char(0) == '+' {
        1
    } else {
        0
    };
    let ghost d = unsigned_digits(s@);
    assert(d =~= s@.subrange(start as int, len as int));
    if start >= len {
        return None;
    }
    let mut val: u64 = 0;
    let mut i: usize = start;
    while i < len
        invariant
            len == s@.len(),
            start <= i <= len,
            d =~= s@.subrange(start as int, len as int),
            d == unsigned_digits(s@),
            forall|j: int| 0 <= j < i - start ==> is_digit(#[trigger] d[j]),
            val == digits_value(d, 0, i - start),
            val <= u32::MAX,
        decreases len - i,
    {
        let c = s.get_char(i);
        if c < '0' || c > '9' {
            assert(!is_digit(d[i - start]));
            return None;
        }
        assert(d[i - start] == c);
        let next: u64 = val * 10 + (c as u32 - '0' as u32) as u64;
        assert(next == digits_value(d, 0, i - start + 1));
        if next > u32::MAX as u64 {
            proof {
                lemma_digits_value_monotonic(d, i - start + 1, d.len() as int);
            }
            return None;
        }
        val = next;
        i = i + 1;
    }
    Some(val as u32)
}

proof fn lemma_digits_value_monotonic(d: Seq<char>, a: int, b: int)
    requires
        0 <= a <= b,
    ensures
        digits_value(d, 0, a) <= digits_value(d, 0, b),
    decreases b - a,
{
    if a < b {
        lemma_digits_value_monotonic(d, a, b - 1);
    }
}

/// What the repeat utility reads from a query string: the last `text`
/// (decoded) and the last `count`, read as a `u32`; a `text` that does not
/// decode stops the reading.
pub open spec fn repeat_params_spec(pairs: Seq<(Seq<char>, Seq<char>)>) -> Result<
    (Option<Seq<char>>, Option<u32>),
    RepeatError,
>
    decreases pairs.len(),
{
    if pairs.len() == 0 {
        Ok((None, None))
    } else {
        match repeat_params_spec(pairs.drop_last()) {
            Err(e) => Err(e),
            Ok((t, c)) => {
                let (key, value) = pairs.last();
                if key == "text"@ {
                    match url_decoded(value) {
                        Some(d) => Ok((Some(d), c)),
                        None => Err(RepeatError::UndecodableText),
                    }
                } else if key == "count"@ {
                    Ok((t, u32_value(value)))
                } else {
                    Ok((t, c))
                }
            },
        }
    }
}

/// The repeat request a query string makes.
pub open spec fn repeat_request_spec(query: Seq<char>) -> Result<(Seq<char>, u32), RepeatError> {
    match repeat_params_spec(query_pairs_spec(query)) {
        Err(e) => Err(e),
        Ok((None, _)) => Err(RepeatError::MissingText),
        Ok((Some(_), None)) => Err(RepeatError::MissingCount),
        Ok((Some(t), Some(c))) => Ok((t, c)),
    }
}

/// Reads the text and the count of a repeat request from a query string.
pub fn repeat_params(query: &str) -> (r: Result<(String, u32), RepeatError>)
    ensures
        match r {
            Ok((t, c)) => repeat_request_spec(query@) == Ok::<(Seq<char>, u32), RepeatError>(
                (t@, c),
            ),
            Err(e) => repeat_request_spec(query@) == Err::<(Seq<char>, u32), RepeatError>(e),
        },
{
    let pairs = query_pairs(query);
    let mut text: Option<String> = None;
    let mut count: Option<u32> = None;
    let mut i: usize = 0;
    while i < pairs.len()
        invariant
            i <= pairs.len(),
            pairs_view(pairs@) == query_pairs_spec(query@),
            repeat_params_spec(pairs_view(pairs@).subrange(0, i as int)) == Ok::<
                (Option<Seq<char>>, Option<u32>),
                RepeatError,
            >((opt_view(text), count)),
        decreases pairs.len() - i,
    {
        let ghost pre = pairs_view(pairs@).subrange(0, i as int + 1);
        proof {
            assert(pre.drop_last() =~= pairs_view(pairs@).subrange(0, i as int));
            assert(pre.last() == (pairs@[i as int].0@, pairs@[i as int].1@));
        }
        let name = pairs[i].0.as_str();
        let value = pairs[i].1.as_str();
        if name.to_owned() == "text".to_owned() {
            match url_decode(value) {
                Some(d) => {
                    text = Some(d);
                },
                None => {
                    proof {
                        lemma_repeat_error_sticks(pairs_view(pairs@), i as int + 1);
                    }
                    assert(pairs_view(pairs@).subrange(0, pairs.len() as int) =~= pairs_view(
                        pairs@,
                    ));
                    return Err(RepeatError::UndecodableText);
                },
            }
        } else if name.to_owned() == "count".to_owned() {
            count = parse_u32(value);
        }
        i = i + 1;
    }
    assert(pairs_view(pairs@).subrange(0, pairs.len() as int) =~= pairs_view(pairs@));
    match text {
        None => Err(RepeatError::MissingText),
        Some(t) => match count {
            None => Err(RepeatError::MissingCount),
            Some(c) => Ok((t, c)),
        },
    }
}

proof fn lemma_repeat_error_sticks(pairs: Seq<(Seq<char>, Seq<char>)>, n: int)
    requires
        0 <= n <= pairs.len(),
        repeat_params_spec(pairs.subrange(0, n)) is Err,
    ensures
        repeat_params_spec(pairs) == repeat_params_spec(pairs.subrange(0, n)),
    decreases pairs.len() - n,
{
    if n < pairs.len() {
        let next = pairs.subrange(0, n + 1);
        assert(next.drop_last() =~= pairs.subrange(0, n));
        lemma_repeat_error_sticks(pairs, n + 1);
    } else {
        assert(pairs.subrange(0, n) =~= pairs);
    }
}

} // verus!
