//! Query-string construction: the pair list is assembled and joined here;
//! only the percent-encoding of a single name/value pair is the url
//! crate's.

use vstd::prelude::*;

verus! {

/// What the form serializer makes of one name/value pair; a function of
/// the two strings alone.
pub uninterp spec fn form_encoded_pair(name: Seq<char>, value: Seq<char>) -> Seq<char>;

/// Relies on url's form_urlencoded serializer: one name/value pair in
/// application/x-www-form-urlencoded form.
#[verifier::external_body]
fn encode_pair(name: &str, value: &str) -> (r: String)
    ensures
        r@ == form_encoded_pair(name@, value@),
{
    let mut s = url::form_urlencoded::Serializer::new(String::new());
    s.append_pair(name, value);
    s.finish()
}

/// The values of a list of name/value pairs.
pub open spec fn pairs_view(pairs: Seq<(String, String)>) -> Seq<(Seq<char>, Seq<char>)> {
    pairs.map_values(|p: (String, String)| (p.0@, p.1@))
}

/// The encoded pairs joined with `&`.
pub open spec fn spec_query_string(pairs: Seq<(Seq<char>, Seq<char>)>) -> Seq<char>
    decreases pairs.len(),
{
    if pairs.len() == 0 {
        Seq::<char>::empty()
    } else if pairs.len() == 1 {
        form_encoded_pair(pairs[0].0, pairs[0].1)
    } else {
        spec_query_string(pairs.drop_last()) + "&"@ + form_encoded_pair(
            pairs.last().0,
            pairs.last().1,
        )
    }
}

/// The base URL with the encoded pairs as its query; the base alone when
/// there is no pair.
pub open spec fn spec_url_with_pairs(base: Seq<char>, pairs: Seq<(Seq<char>, Seq<char>)>) -> Seq<
    char,
> {
    if pairs.len() == 0 {
        base
    } else {
        base + "?"@ + spec_query_string(pairs)
    }
}

/// Appends the encoded pairs to the base URL as its query string.
pub fn build_url(base: &str, pairs: &Vec<(String, String)>) -> (r: String)
    ensures
        r@ == spec_url_with_pairs(base@, pairs_view(pairs@)),
{
    let ghost pv = pairs_view(pairs@);
    let mut out: String = base.to_owned();
    let mut i: usize = 0;
    let n = pairs.len();
    while i < n
        invariant
            0 <= i <= pv.len(),
            n == pv.len(),
            pv == pairs_view(pairs@),
            i == 0 ==> out@ == base@,
            i > 0 ==> out@ == base@ + "?"@ + spec_query_string(pv.take(i as int)),
        decreases n - i,
    {
        proof {
            assert(pv.take(i + 1 as int).drop_last() =~= pv.take(i as int));
            assert(pv.take(i + 1 as int).last() == pv[i as int]);
            assert(pv[i as int] == (pairs@[i as int].0@, pairs@[i as int].1@));
        }
        if i == 0 {
            out.append("?");
        } else {
            out.append("&");
        }
        let encoded = encode_pair(pairs[i].0.as_str(), pairs[i].1.as_str());
        out.append(encoded.as_str());
        proof {
            if i == 0 {
                assert(out@ =~= base@ + "?"@ + spec_query_string(pv.take(1)));
            } else {
                assert(out@ =~= base@ + "?"@ + spec_query_string(pv.take(i + 1 as int)));
            }
        }
        i = i + 1;
    }
    proof {
        assert(pv.take(n as int) =~= pv);
    }
    out
}

/// The pair list with one more name/value pair.
pub open spec fn with_pair(
    s: Seq<(Seq<char>, Seq<char>)>,
    name: Seq<char>,
    value: Seq<char>,
) -> Seq<(Seq<char>, Seq<char>)> {
    s.push((name, value))
}

/// The pair list with one more pair when the value is present, unchanged
/// otherwise.
pub open spec fn with_opt(
    s: Seq<(Seq<char>, Seq<char>)>,
    name: Seq<char>,
    value: Option<Seq<char>>,
) -> Seq<(Seq<char>, Seq<char>)> {
    match value {
        Some(v) => s.push((name, v)),
        None => s,
    }
}

/// Appends one name/value pair to the list.
pub(crate) fn push_pair(pairs: &mut Vec<(String, String)>, name: &str, value: String)
    ensures
        pairs_view(final(pairs)@) == pairs_view(old(pairs)@).push((name@, value@)),
{
    pairs.push((name.to_owned(), value));
    proof {
        assert(pairs_view(pairs@) =~= pairs_view(old(pairs)@).push((name@, value@)));
    }
}

} // verus!
