//! Small string utilities: query-string concatenation, scope joining, the
//! random state-token generator, and helpers shared by the other modules.

use vstd::prelude::*;

verus! {

/// `String::push` appends the given character to the end of the string.
pub assume_specification[ String::push ](s: &mut String, ch: char)
    ensures
        final(s)@ == old(s)@.push(ch),
;

/// Character-for-character equality of two string slices.
pub fn str_eq(a: &str, b: &str) -> (r: bool)
    ensures
        r == (a@ == b@),
{
    let alen = a.unicode_len();
    let blen = b.unicode_len();
    if alen != blen {
        return false;
    }
    let mut i: usize = 0;
    while i < alen
        invariant
            i <= alen,
            alen == a@.len(),
            alen == b@.len(),
            forall|j: int| 0 <= j < i ==> a@[j] == b@[j],
        decreases alen - i,
    {
        if a.get_char(i) != b.get_char(i) {
            return false;
        }
        i = i + 1;
    }
    proof {
        assert(a@ =~= b@);
    }
    true
}

/// The view of a list of string pairs as a list of character-sequence pairs.
pub open spec fn pairs_view(pairs: Seq<(String, String)>) -> Seq<(Seq<char>, Seq<char>)> {
    pairs.map_values(|p: (String, String)| (p.0@, p.1@))
}

/// The wire form of a parameter list: every pair appears as `key=value&`,
/// in the order given.
pub open spec fn query_concat(pairs: Seq<(Seq<char>, Seq<char>)>) -> Seq<char>
    decreases pairs.len(),
{
    if pairs.len() == 0 {
        Seq::empty()
    } else {
        pairs[0].0 + seq!['='] + pairs[0].1 + seq!['&'] + query_concat(pairs.skip(1))
    }
}

proof fn lemma_query_concat_push(pairs: Seq<(Seq<char>, Seq<char>)>, p: (Seq<char>, Seq<char>))
    ensures
        query_concat(pairs.push(p)) == query_concat(pairs) + p.0 + seq!['='] + p.1 + seq!['&'],
    decreases pairs.len(),
{
    assert(pairs.push(p)[0] == if pairs.len() == 0 {
        p
    } else {
        pairs[0]
    });
    if pairs.len() == 0 {
        assert(pairs.push(p).skip(1) =~= Seq::<(Seq<char>, Seq<char>)>::empty());
        assert(query_concat(pairs.push(p).skip(1)) =~= Seq::<char>::empty());
        assert(query_concat(pairs.push(p)) =~= query_concat(pairs) + p.0 + seq!['='] + p.1
            + seq!['&']);
    } else {
        lemma_query_concat_push(pairs.skip(1), p);
        assert(pairs.push(p).skip(1) =~= pairs.skip(1).push(p));
        assert(query_concat(pairs.push(p)) =~= query_concat(pairs) + p.0 + seq!['='] + p.1
            + seq!['&']);
    }
}

/// Turns a parameter list into a query string: each `(key, value)` pair
/// becomes `key=value&`, pairs in the order given.
pub fn convert_map_to_string(pairs: &Vec<(String, String)>) -> (r: String)
    ensures
        r@ == query_concat(pairs_view(pairs@)),
{
    proof {
        reveal_strlit("=");
        reveal_strlit("&");
    }
    let mut out = String::new();
    let mut i: usize = 0;
    while i < pairs.len()
        invariant
            i <= pairs@.len(),
            out@ == query_concat(pairs_view(pairs@).take(i as int)),
            "="@ =~= seq!['='],
            "&"@ =~= seq!['&'],
        decreases pairs@.len() - i,
    {
        out.append(pairs[i].0.as_str());
        out.append("=");
        out.append(pairs[i].1.as_str());
        out.append("&");
        proof {
            let pv = pairs_view(pairs@);
            assert(pv.take(i + 1) =~= pv.take(i as int).push(pv[i as int]));
            lemma_query_concat_push(pv.take(i as int), pv[i as int]);
        }
        i = i + 1;
    }
    proof {
        assert(pairs_view(pairs@).take(pairs@.len() as int) =~= pairs_view(pairs@));
    }
    out
}

/// The items joined with a single space between neighbours and nothing
/// before the first or after the last.
pub open spec fn space_joined(items: Seq<Seq<char>>) -> Seq<char>
    decreases items.len(),
{
    if items.len() == 0 {
        Seq::empty()
    } else if items.len() == 1 {
        items[0]
    } else {
        items[0] + seq![' '] + space_joined(items.skip(1))
    }
}

proof fn lemma_space_joined_push(items: Seq<Seq<char>>, x: Seq<char>)
    requires
        items.len() > 0,
    ensures
        space_joined(items.push(x)) == space_joined(items) + seq![' '] + x,
    decreases items.len(),
{
    assert(items.push(x)[0] == items[0]);
    if items.len() == 1 {
        assert(items.push(x).skip(1) =~= seq![x]);
        assert(space_joined(items.push(x).skip(1)) =~= x);
        assert(space_joined(items.push(x)) =~= space_joined(items) + seq![' '] + x);
    } else {
        lemma_space_joined_push(items.skip(1), x);
        assert(items.push(x).skip(1) =~= items.skip(1).push(x));
        assert(space_joined(items.push(x)) =~= space_joined(items) + seq![' '] + x);
    }
}

/// The view of a list of strings as a list of character sequences.
pub open spec fn strings_view(items: Seq<String>) -> Seq<Seq<char>> {
    items.map_values(|s: String| s@)
}

/// Joins scope names into the single space-separated string the provider
/// expects; the empty list gives the empty string.
pub fn convert_scope_vec_to_string(scopes: &Vec<String>) -> (r: String)
    ensures
        r@ == space_joined(strings_view(scopes@)),
{
    proof {
        reveal_strlit(" ");
    }
    if scopes.len() == 0 {
        return String::new();
    }
    let mut out = String::new();
    out.append(scopes[0].as_str());
    let mut i: usize = 1;
    while i < scopes.len()
        invariant
            1 <= i <= scopes@.len(),
            out@ == space_joined(strings_view(scopes@).take(i as int)),
            " "@ =~= seq![' '],
        decreases scopes@.len() - i,
    {
        out.append(" ");
        out.append(scopes[i].as_str());
        proof {
            let sv = strings_view(scopes@);
            assert(sv.take(i + 1) =~= sv.take(i as int).push(sv[i as int]));
            lemma_space_joined_push(sv.take(i as int), sv[i as int]);
        }
        i = i + 1;
    }
    proof {
        assert(strings_view(scopes@).take(scopes@.len() as int) =~= strings_view(scopes@));
    }
    out
}

/// Whether `needle` occurs in `hay` as a contiguous run.
pub open spec fn spec_contains_seq(hay: Seq<char>, needle: Seq<char>) -> bool {
    exists|k: int|
        0 <= k <= hay.len() - needle.len() && #[trigger] hay.subrange(k, k + needle.len())
            == needle
}

fn match_at(hay: &str, needle: &str, k: usize) -> (r: bool)
    requires
        k + needle@.len() <= hay@.len(),
    ensures
        r == (hay@.subrange(k as int, k + needle@.len()) == needle@),
{
    let hn = hay.unicode_len();
    let nn = needle.unicode_len();
    let mut m: usize = 0;
    while m < nn
        invariant
            m <= nn,
            nn == needle@.len(),
            hn == hay@.len(),
            k + nn <= hay@.len(),
            forall|p: int| 0 <= p < m ==> hay@[k + p] == needle@[p],
        decreases nn - m,
    {
        if hay.get_char(k + m) != needle.get_char(m) {
            proof {
                assert(hay@.subrange(k as int, k + needle@.len())[m as int] != needle@[m as int]);
            }
            return false;
        }
        m = m + 1;
    }
    proof {
        assert(hay@.subrange(k as int, k + needle@.len()) =~= needle@);
    }
    true
}

/// Whether `needle` occurs in `hay` as a contiguous run of characters.
pub fn contains_substr(hay: &str, needle: &str) -> (r: bool)
    ensures
        r == spec_contains_seq(hay@, needle@),
{
    let hn = hay.unicode_len();
    let nn = needle.unicode_len();
    if nn > hn {
        return false;
    }
    if nn == 0 {
        proof {
            assert(hay@.subrange(0, 0 + needle@.len() as int) =~= needle@);
        }
        return true;
    }
    let mut k: usize = 0;
    while k <= hn - nn
        invariant
            0 < nn <= hn,
            hn == hay@.len(),
            nn == needle@.len(),
            k <= hn - nn + 1,
            forall|j: int|
                0 <= j < k ==> #[trigger] hay@.subrange(j, j + needle@.len()) != needle@,
        decreases hn - nn - k + 1,
    {
        if match_at(hay, needle, k) {
            return true;
        }
        k = k + 1;
    }
    false
}

/// The decimal digits of a number, most significant first.
pub open spec fn spec_dec_digits(n: int) -> Seq<char>
    recommends
        0 <= n,
    decreases n,
{
    if n < 10 {
        seq![('0' as int + n) as char]
    } else {
        spec_dec_digits(n / 10) + seq![('0' as int + n % 10) as char]
    }
}

/// Formats a number in decimal.
pub fn u32_to_string(n: u32) -> (r: String)
    ensures
        r@ == spec_dec_digits(n as int),
    decreases n,
{
    if n < 10 {
        let mut out = String::new();
        out.push((('0' as u8) + (n as u8)) as char);
        proof {
            assert(out@ =~= spec_dec_digits(n as int));
        }
        out
    } else {
        let mut out = u32_to_string(n / 10);
        out.push((('0' as u8) + ((n % 10) as u8)) as char);
        proof {
            assert(out@ =~= spec_dec_digits(n as int));
        }
        out
    }
}

/// Formats a flag the way the query parameters expect it.
pub fn bool_to_string(b: bool) -> (r: String)
    ensures
        b ==> r@ == "true"@,
        !b ==> r@ == "false"@,
{
    if b {
        "true".to_owned()
    } else {
        "false".to_owned()
    }
}

/// The transport-level address of a redirect URI: the same string with a
/// leading `http://` or `https://` stripped, since the listener binds a
/// socket, not a URL.
pub open spec fn spec_chomp_http_prefix(u: Seq<char>) -> Seq<char> {
    if u.len() >= 7 && u.subrange(0, 7) == "http://"@ {
        u.subrange(7, u.len() as int)
    } else if u.len() >= 8 && u.subrange(0, 8) == "https://"@ {
        u.subrange(8, u.len() as int)
    } else {
        u
    }
}

/// Strips a leading URL scheme from the redirect URI, leaving the
/// host-and-port part the listener binds to.
pub fn chomp_http_prefix(url: &str) -> (r: String)
    ensures
        r@ == spec_chomp_http_prefix(url@),
{
    let n = url.unicode_len();
    if n >= 7 && str_eq(url.substring_char(0, 7), "http://") {
        url.substring_char(7, n).to_owned()
    } else if n >= 8 && str_eq(url.substring_char(0, 8), "https://") {
        url.substring_char(8, n).to_owned()
    } else {
        url.to_owned()
    }
}

/// The characters the state token is drawn from: ASCII letters and digits.
pub open spec fn is_alphanumeric_char(c: char) -> bool {
    ||| 'a' as int <= c as int <= 'z' as int
    ||| 'A' as int <= c as int <= 'Z' as int
    ||| '0' as int <= c as int <= '9' as int
}

/// The alphabet of the state-token generator, indexed 0 to 61: lower-case
/// letters, then upper-case letters, then digits.
pub open spec fn spec_alphanumeric_char(i: int) -> char
    recommends
        0 <= i < 62,
{
    if i < 26 {
        ('a' as int + i) as char
    } else if i < 52 {
        ('A' as int + (i - 26)) as char
    } else {
        ('0' as int + (i - 52)) as char
    }
}

fn alphanumeric_char(i: usize) -> (c: char)
    requires
        i < 62,
    ensures
        c == spec_alphanumeric_char(i as int),
        is_alphanumeric_char(c),
{
    let b: u8 = if i < 26 {
        ('a' as u8) + (i as u8)
    } else if i < 52 {
        ('A' as u8) + ((i - 26) as u8)
    } else {
        ('0' as u8) + ((i - 52) as u8)
    };
    b as char
}

/// Relies on rand::random_range: returns a uniformly random value drawn from
/// the given range, here an index below 62; the range is non-empty, so the
/// call does not panic.
#[verifier::external_body]
fn random_alphanumeric_index() -> (r: usize)
    ensures
        r < 62,
{
    rand::random_range(0..62usize)
}

/// Generates an unpredictable state token: a string of exactly `length`
/// characters, each an ASCII letter or digit.
pub fn generate_random_string(length: usize) -> (r: String)
    ensures
        r@.len() == length,
        forall|j: int| 0 <= j < r@.len() ==> is_alphanumeric_char(#[trigger] r@[j]),
{
    let mut out = String::new();
    let mut i: usize = 0;
    while i < length
        invariant
            i <= length,
            out@.len() == i,
            forall|j: int| 0 <= j < out@.len() ==> is_alphanumeric_char(#[trigger] out@[j]),
        decreases length - i,
    {
        let idx = random_alphanumeric_index();
        out.push(alphanumeric_char(idx));
        i = i + 1;
    }
    out
}

} // verus!
