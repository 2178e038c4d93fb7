//! The address of the daemon's dashboard, with the token that opens it.

use crate::identity::DaemonIdentity;
use crate::text::option_str_text;
use vstd::prelude::*;
use vstd::string::StringSliceAdditionalSpecFns;
use vstd::utf8::encode_utf8;

verus! {

/// Whether the byte stands for itself in a URL: a letter or a digit of ASCII,
/// or one of `-`, `.`, `_`, `~`.
pub open spec fn unreserved(b: u8) -> bool {
    ||| 0x30 <= b <= 0x39
    ||| 0x41 <= b <= 0x5a
    ||| 0x61 <= b <= 0x7a
    ||| b == 0x2d
    ||| b == 0x2e
    ||| b == 0x5f
    ||| b == 0x7e
}

/// The hexadecimal digit for `n`, in upper case.
pub open spec fn hex_digit(n: u8) -> char
    recommends
        n < 16,
{
    if n < 10 {
        (0x30 + n) as u8 as char
    } else {
        (0x41 + n - 10) as u8 as char
    }
}

/// One byte, percent-encoded: itself where it is unreserved, else a percent
/// sign and its two hexadecimal digits.
pub open spec fn encoded_byte(b: u8) -> Seq<char> {
    if unreserved(b) {
        seq![b as char]
    } else {
        seq!['%', hex_digit(b / 16), hex_digit(b % 16)]
    }
}

/// A row of bytes, percent-encoded byte by byte.
pub open spec fn percent_encoded(bytes: Seq<u8>) -> Seq<char>
    decreases bytes.len(),
{
    if bytes.len() == 0 {
        Seq::empty()
    } else {
        encoded_byte(bytes.first()) + percent_encoded(bytes.drop_first())
    }
}

/// `urlencoding::encode`. Trusted: the text is taken as its UTF-8 bytes, and
/// every byte is passed on as itself where it is an ASCII letter or digit or one
/// of `-`, `.`, `_`, `~`, and as `%` with two upper-case hexadecimal digits
/// where it is anything else.
#[verifier::external_body]
pub(crate) fn percent_encode(text: &str) -> (encoded: String)
    ensures
        encoded@ == percent_encoded(text.spec_bytes()),
{
    urlencoding::encode(text).into_owned()
}

/// The dashboard's address: the daemon's base URL, and behind it the token as
/// the query parameter `token`, percent-encoded, where there is a token.
pub open spec fn dashboard_url_text(identity: DaemonIdentity, token: Option<Seq<char>>) -> Seq<
    char,
> {
    match token {
        Some(t) => identity.base_url_text() + "?token="@ + percent_encoded(encode_utf8(t)),
        None => identity.base_url_text(),
    }
}

/// Writes the dashboard's address for the token that was read, if any.
pub fn get_dashboard_url(identity: DaemonIdentity, token: Option<&str>) -> (url: String)
    ensures
        url@ == dashboard_url_text(identity, option_str_text(token)),
{
    let mut url = identity.base_url();
    match token {
        Some(t) => {
            let encoded = percent_encode(t);
            url.append("?token=");
            url.append(encoded.as_str());
        },
        None => {},
    }
    url
}

/// Whether `c` may stand in the value of a query parameter as it is: an ASCII
/// letter or digit, one of `-`, `.`, `_`, `~`, or the percent sign that opens an
/// escape.
pub open spec fn url_safe(c: char) -> bool {
    let code = c as u32;
    ||| 0x30 <= code <= 0x39
    ||| 0x41 <= code <= 0x5a
    ||| 0x61 <= code <= 0x7a
    ||| c == '-'
    ||| c == '.'
    ||| c == '_'
    ||| c == '~'
    ||| c == '%'
}

/// The number that a hexadecimal digit in upper case stands for.
pub open spec fn hex_value(c: char) -> int {
    let code = c as u32;
    if 0x30 <= code <= 0x39 {
        code - 0x30
    } else {
        code - 0x41 + 10
    }
}

/// The bytes that a percent-encoded text stands for.
pub open spec fn percent_decoded(s: Seq<char>) -> Seq<u8>
    decreases s.len(),
{
    if s.len() == 0 {
        Seq::empty()
    } else if s.first() == '%' && s.len() >= 3 {
        seq![(hex_value(s[1]) * 16 + hex_value(s[2])) as u8] + percent_decoded(
            s.subrange(3, s.len() as int),
        )
    } else {
        seq![s.first() as u8] + percent_decoded(s.drop_first())
    }
}

/// An encoded byte is made of characters that are safe in a URL, and stands
/// for the byte.
proof fn lemma_encoded_byte(b: u8)
    ensures
        forall|i: int| 0 <= i < encoded_byte(b).len() ==> url_safe(#[trigger] encoded_byte(b)[i]),
        unreserved(b) ==> encoded_byte(b).len() == 1 && encoded_byte(b)[0] != '%' && encoded_byte(
            b,
        )[0] as u8 == b,
        !unreserved(b) ==> encoded_byte(b).len() == 3 && encoded_byte(b)[0] == '%' && hex_value(
            encoded_byte(b)[1],
        ) * 16 + hex_value(encoded_byte(b)[2]) == b,
{
    let high: u8 = b / 16;
    let low: u8 = b % 16;
    assert(high < 16 && low < 16);
    assert(hex_value(hex_digit(high)) == high);
    assert(hex_value(hex_digit(low)) == low);
    assert(url_safe(hex_digit(high)));
    assert(url_safe(hex_digit(low)));
    assert(high * 16 + low == b);
}

/// Whatever the token holds, its encoding is made of characters that are safe
/// in a query: none of them is a slash, a plus sign, an ampersand, an equals
/// sign, a question mark, a number sign or a space.
pub proof fn law_encoded_token_is_url_safe(bytes: Seq<u8>)
    ensures
        forall|i: int|
            0 <= i < percent_encoded(bytes).len() ==> url_safe(#[trigger] percent_encoded(bytes)[i]),
        forall|i: int|
            0 <= i < percent_encoded(bytes).len() ==> {
                let c = #[trigger] percent_encoded(bytes)[i];
                c != '/' && c != '+' && c != '&' && c != '=' && c != '?' && c != '#' && c != ' '
            },
    decreases bytes.len(),
{
    if bytes.len() > 0 {
        lemma_encoded_byte(bytes.first());
        law_encoded_token_is_url_safe(bytes.drop_first());
        let head = encoded_byte(bytes.first());
        let rest = percent_encoded(bytes.drop_first());
        assert forall|i: int| 0 <= i < percent_encoded(bytes).len() implies url_safe(
            #[trigger] percent_encoded(bytes)[i],
        ) by {
            if i < head.len() {
                assert(percent_encoded(bytes)[i] == head[i]);
            } else {
                assert(percent_encoded(bytes)[i] == rest[i - head.len()]);
            }
        }
    }
}

/// The encoding loses nothing: decoding it gives the token's bytes back.
pub proof fn law_encoding_loses_nothing(bytes: Seq<u8>)
    ensures
        percent_decoded(percent_encoded(bytes)) == bytes,
    decreases bytes.len(),
{
    if bytes.len() > 0 {
        let b = bytes.first();
        lemma_encoded_byte(b);
        law_encoding_loses_nothing(bytes.drop_first());
        let head = encoded_byte(b);
        let rest = percent_encoded(bytes.drop_first());
        let all = percent_encoded(bytes);
        assert(all == head + rest);
        assert(all.first() == head[0]);
        if unreserved(b) {
            assert(all.drop_first() =~= rest);
        } else {
            assert(all[1] == head[1]);
            assert(all[2] == head[2]);
            assert(all.subrange(3, all.len() as int) =~= rest);
        }
        assert(percent_decoded(all) =~= seq![b] + bytes.drop_first());
        assert(seq![b] + bytes.drop_first() =~= bytes);
    } else {
        assert(percent_decoded(percent_encoded(bytes)) =~= bytes);
    }
}

/// Without a token the dashboard's address is the bare base URL. With one, the
/// address is the base URL, `?token=`, and the escaped token, and everything
/// behind `?token=` is safe in a query.
pub proof fn law_token_travels_escaped(identity: DaemonIdentity, token: Seq<char>)
    ensures
        dashboard_url_text(identity, None) == identity.base_url_text(),
        ({
            let url = dashboard_url_text(identity, Some(token));
            let query_at = identity.base_url_text().len() as int + 7;
            &&& url.subrange(0, query_at) == identity.base_url_text() + "?token="@
            &&& forall|i: int| query_at <= i < url.len() ==> url_safe(#[trigger] url[i])
        }),
{
    reveal_strlit("?token=");
    let base = identity.base_url_text();
    let encoded = percent_encoded(encode_utf8(token));
    let url = dashboard_url_text(identity, Some(token));
    law_encoded_token_is_url_safe(encode_utf8(token));
    assert(url.subrange(0, base.len() as int + 7) =~= base + "?token="@);
    assert forall|i: int| base.len() + 7 <= i < url.len() implies url_safe(#[trigger] url[i]) by {
        assert(url[i] == encoded[i - base.len() - 7]);
    }
}

/// A slash and a plus sign in a token are escaped.
pub proof fn law_slash_and_plus_are_escaped()
    ensures
        encoded_byte(0x2f) == seq!['%', '2', 'F'],
        encoded_byte(0x2b) == seq!['%', '2', 'B'],
{
    assert(encoded_byte(0x2f) =~= seq!['%', '2', 'F']);
    assert(encoded_byte(0x2b) =~= seq!['%', '2', 'B']);
}

} // verus!
