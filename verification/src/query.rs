//! Query strings: their `name=value` pairs, and the query handed to the
//! watermarking backend.

use vstd::prelude::*;
use vstd::string::StringSliceAdditionalSpecFns;

verus! {

/// The mathematical model of a parsed query: its pairs in order.
pub type Pairs = Seq<(Seq<char>, Seq<char>)>;

/// One `name=value` pair of a query string, decoded.
#[derive(Clone, Debug, PartialEq, Eq)]
pub struct QueryPair {
    pub name: String,
    pub value: String,
}

impl View for QueryPair {
    type V = (Seq<char>, Seq<char>);

    open spec fn view(&self) -> (Seq<char>, Seq<char>) {
        (self.name@, self.value@)
    }
}

/// The views of `pairs`, in order.
pub open spec fn pairs_view(pairs: Seq<QueryPair>) -> Pairs {
    Seq::new(pairs.len(), |i: int| pairs[i]@)
}

/// The decoded pairs of the form-encoded text `query`, in order.
pub uninterp spec fn form_pairs(query: Seq<char>) -> Pairs;

/// The pairs of a request's query, which may be absent.
pub open spec fn query_pairs(query: Option<Seq<char>>) -> Pairs {
    match query {
        Some(q) => form_pairs(q),
        None => Seq::empty(),
    }
}

/// The value of the first pair of `pairs` whose name is exactly `name`.
pub open spec fn first_with_name(pairs: Pairs, name: Seq<char>) -> Option<Seq<char>>
    decreases pairs.len(),
{
    if pairs.len() == 0 {
        None
    } else if pairs[0].0 == name {
        Some(pairs[0].1)
    } else {
        first_with_name(pairs.drop_first(), name)
    }
}

/// Bytes that percent-encoding leaves as they are: ASCII letters and digits,
/// `-`, `.`, `_` and `~`.
pub open spec fn is_unreserved(b: u8) -> bool {
    ||| 0x30 <= b <= 0x39
    ||| 0x41 <= b <= 0x5a
    ||| 0x61 <= b <= 0x7a
    ||| b == 0x2d
    ||| b == 0x2e
    ||| b == 0x5f
    ||| b == 0x7e
}

/// The upper-case hexadecimal digit of a value below 16.
pub open spec fn upper_hex_digit(d: u8) -> char {
    if d < 10 {
        ((0x30 + d) as u8) as char
    } else {
        ((0x41 + d - 10) as u8) as char
    }
}

/// One byte, percent-encoded.
pub open spec fn escaped_byte(b: u8) -> Seq<char> {
    if is_unreserved(b) {
        seq![b as char]
    } else {
        seq!['%', upper_hex_digit(b / 16), upper_hex_digit(b % 16)]
    }
}

/// A byte string, percent-encoded byte by byte.
pub open spec fn escaped_bytes(bytes: Seq<u8>) -> Seq<char>
    decreases bytes.len(),
{
    if bytes.len() == 0 {
        Seq::empty()
    } else {
        escaped_bytes(bytes.drop_last()) + escaped_byte(bytes.last())
    }
}

/// The percent-encoding of the UTF-8 bytes of `text`.
pub open spec fn percent_encoded(text: Seq<char>) -> Seq<char> {
    escaped_bytes(vstd::utf8::encode_utf8(text))
}

/// One pair as it stands in a query string.
pub open spec fn pair_text(pair: (Seq<char>, Seq<char>)) -> Seq<char> {
    percent_encoded(pair.0) + seq!['='] + percent_encoded(pair.1)
}

/// The query string of `pairs`: each pair encoded, with `&` between them.
pub open spec fn query_text(pairs: Pairs) -> Seq<char>
    decreases pairs.len(),
{
    if pairs.len() == 0 {
        Seq::empty()
    } else if pairs.len() == 1 {
        pair_text(pairs[0])
    } else {
        query_text(pairs.drop_last()) + seq!['&'] + pair_text(pairs.last())
    }
}

/// The query of the request to the watermarking backend: the pairs of the
/// client's query, then `subject_key` with the authenticated subject.
pub open spec fn watermark_query(query: Option<Seq<char>>, subject: Seq<char>) -> Seq<char> {
    query_text(query_pairs(query).push(("subject_key"@, subject)))
}

/// `form_urlencoded::parse`, its items collected in order and made owned:
/// the pairs depend on the query text alone.
#[verifier::external_body]
fn parse_form(query: &str) -> (pairs: Vec<QueryPair>)
    ensures
        pairs_view(pairs@) == form_pairs(query@),
{
    form_urlencoded::parse(query.as_bytes())
        .map(|(name, value)| QueryPair { name: name.into_owned(), value: value.into_owned() })
        .collect()
}

/// `urlencoding::encode`: every byte of the UTF-8 text is kept if it is an
/// ASCII letter, a digit or one of `-`, `.`, `_`, `~`, and else written as `%`
/// and two upper-case hexadecimal digits.
#[verifier::external_body]
fn percent_encode(text: &str) -> (out: String)
    ensures
        out@ == percent_encoded(text@),
{
    urlencoding::encode(text).into_owned()
}

/// Parses the query of a request into its decoded pairs.
pub fn parse_query(query: &Option<String>) -> (pairs: Vec<QueryPair>)
    ensures
        pairs_view(pairs@) == query_pairs(
            match *query {
                Some(q) => Some(q@),
                None => None,
            },
        ),
{
    match query {
        Some(q) => parse_form(q.as_str()),
        None => {
            let pairs: Vec<QueryPair> = Vec::new();
            assert(pairs_view(pairs@) =~= Seq::empty());
            pairs
        },
    }
}

/// The value of the first pair called exactly `name`.
pub fn find_pair(pairs: &Vec<QueryPair>, name: &str) -> (value: Option<String>)
    ensures
        value is Some == first_with_name(pairs_view(pairs@), name@) is Some,
        value matches Some(v) ==> first_with_name(pairs_view(pairs@), name@) == Some(v@),
{
    let wanted = name.to_owned();
    let mut i: usize = 0;
    let ghost all = pairs_view(pairs@);
    assert(all.subrange(0, all.len() as int) =~= all);
    while i < pairs.len()
        invariant
            i <= pairs.len(),
            wanted@ == name@,
            all == pairs_view(pairs@),
            first_with_name(all, name@) == first_with_name(
                all.subrange(i as int, all.len() as int),
                name@,
            ),
        decreases pairs.len() - i,
    {
        proof {
            let rest = all.subrange(i as int, all.len() as int);
            assert(rest[0] == pairs@[i as int]@);
            assert(rest.drop_first() =~= all.subrange(i + 1, all.len() as int));
        }
        if pairs[i].name == wanted {
            return Some(pairs[i].value.clone());
        }
        i += 1;
    }
    None
}

/// The query string of `pairs`.
pub fn encode_pairs(pairs: &Vec<QueryPair>) -> (out: String)
    ensures
        out@ == query_text(pairs_view(pairs@)),
{
    let mut out = String::new();
    let mut i: usize = 0;
    let ghost all = pairs_view(pairs@);
    assert(all.subrange(0, 0) =~= Seq::empty());
    while i < pairs.len()
        invariant
            i <= pairs.len(),
            all == pairs_view(pairs@),
            out@ == query_text(all.subrange(0, i as int)),
        decreases pairs.len() - i,
    {
        proof {
            let upto = all.subrange(0, i + 1);
            assert(upto.drop_last() =~= all.subrange(0, i as int));
            assert(upto.last() == pairs@[i as int]@);
            assert(upto[0] == all[0]);
        }
        let ghost before = out@;
        if i > 0 {
            out.append("&");
        }
        let name = percent_encode(pairs[i].name.as_str());
        let value = percent_encode(pairs[i].value.as_str());
        out.append(name.as_str());
        out.append("=");
        out.append(value.as_str());
        proof {
            reveal_strlit("&");
            reveal_strlit("=");
            assert("&"@ =~= seq!['&']);
            assert("="@ =~= seq!['=']);
            let p = pairs@[i as int]@;
            if i > 0 {
                assert(out@ =~= before + seq!['&'] + pair_text(p));
            } else {
                assert(out@ =~= pair_text(p));
            }
        }
        i += 1;
    }
    assert(all.subrange(0, i as int) =~= all);
    out
}

/// Builds the query of the request to the watermarking backend.
pub fn build_watermark_query(query: &Option<String>, subject: &str) -> (out: String)
    ensures
        out@ == watermark_query(
            match *query {
                Some(q) => Some(q@),
                None => None,
            },
            subject@,
        ),
{
    let mut pairs = parse_query(query);
    let ghost before = pairs_view(pairs@);
    pairs.push(QueryPair { name: "subject_key".to_owned(), value: subject.to_owned() });
    assert(pairs_view(pairs@) =~= before.push(("subject_key"@, subject@)));
    encode_pairs(&pairs)
}

} // verus!
