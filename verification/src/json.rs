//! A verified parser for the flat JSON objects the provider's token
//! endpoints return: one object whose values are strings, unsigned
//! integers, booleans or null. String escapes cover the single-character
//! forms; `\u`, signed or fractional numbers, and nested objects or arrays
//! are outside the grammar and make the whole body unparseable.

use vstd::prelude::*;

verus! {

/// A value of the flat token object, as spec code sees it.
pub enum SpecJsonValue {
    Str(Seq<char>),
    Num(u64),
    Bool(bool),
    Null,
}

/// A value of the flat token object.
#[derive(Clone, Debug)]
pub enum JsonValue {
    Str(String),
    Num(u64),
    Bool(bool),
    Null,
}

impl View for JsonValue {
    type V = SpecJsonValue;

    open spec fn view(&self) -> SpecJsonValue {
        match self {
            JsonValue::Str(s) => SpecJsonValue::Str(s@),
            JsonValue::Num(n) => SpecJsonValue::Num(*n),
            JsonValue::Bool(b) => SpecJsonValue::Bool(*b),
            JsonValue::Null => SpecJsonValue::Null,
        }
    }
}

/// The members of a parsed object, as spec code sees them.
pub open spec fn kv_view(members: Seq<(String, JsonValue)>) -> Seq<(Seq<char>, SpecJsonValue)> {
    members.map_values(|p: (String, JsonValue)| (p.0@, p.1@))
}

/// JSON whitespace.
pub open spec fn is_ws_char(c: char) -> bool {
    c == ' ' || c == '\t' || c == '\n' || c == '\r'
}

fn is_ws(c: char) -> (r: bool)
    ensures
        r == is_ws_char(c),
{
    c == ' ' || c == '\t' || c == '\n' || c == '\r'
}

/// A decimal digit.
pub open spec fn is_digit_char(c: char) -> bool {
    '0' as int <= c as int <= '9' as int
}

fn is_digit(c: char) -> (r: bool)
    ensures
        r == is_digit_char(c),
{
    let v = c as u32;
    v >= '0' as u32 && v <= '9' as u32
}

/// The position of the first non-whitespace character at or after `i`.
pub open spec fn spec_skip_ws(s: Seq<char>, i: int) -> int
    decreases s.len() - i,
{
    if 0 <= i < s.len() && is_ws_char(s[i]) {
        spec_skip_ws(s, i + 1)
    } else {
        i
    }
}

fn skip_ws(s: &str, i: usize) -> (r: usize)
    requires
        i <= s@.len(),
    ensures
        r as int == spec_skip_ws(s@, i as int),
        i <= r <= s@.len(),
    decreases s@.len() - i,
{
    if i < s.unicode_len() && is_ws(s.get_char(i)) {
        skip_ws(s, i + 1)
    } else {
        i
    }
}

/// The character an escape stands for, for the single-character escapes.
pub open spec fn spec_escape_char(e: char) -> Option<char> {
    match e {
        '"' => Some('"'),
        '\\' => Some('\\'),
        '/' => Some('/'),
        'n' => Some('\n'),
        't' => Some('\t'),
        'r' => Some('\r'),
        'b' => Some('\u{0008}'),
        'f' => Some('\u{000C}'),
        _ => None,
    }
}

fn escape_char(e: char) -> (r: Option<char>)
    ensures
        r == spec_escape_char(e),
{
    match e {
        '"' => Some('"'),
        '\\' => Some('\\'),
        '/' => Some('/'),
        'n' => Some('\n'),
        't' => Some('\t'),
        'r' => Some('\r'),
        'b' => Some('\u{0008}'),
        'f' => Some('\u{000C}'),
        _ => None,
    }
}

/// Parses the body of a string literal, starting just after the opening
/// quote; yields the decoded characters and the position just after the
/// closing quote.
pub open spec fn spec_parse_string_body(s: Seq<char>, i: int) -> Option<(Seq<char>, int)>
    decreases s.len() - i,
{
    if i < 0 || i >= s.len() {
        None
    } else if s[i] == '"' {
        Some((Seq::empty(), i + 1))
    } else if s[i] == '\\' {
        if i + 1 < s.len() {
            match spec_escape_char(s[i + 1]) {
                Some(m) => match spec_parse_string_body(s, i + 2) {
                    Some(p) => Some((seq![m] + p.0, p.1)),
                    None => None,
                },
                None => None,
            }
        } else {
            None
        }
    } else if (s[i] as int) < 32 {
        None
    } else {
        match spec_parse_string_body(s, i + 1) {
            Some(p) => Some((seq![s[i]] + p.0, p.1)),
            None => None,
        }
    }
}

fn parse_string_body(s: &str, i: usize) -> (r: Option<(String, usize)>)
    requires
        i <= s@.len(),
    ensures
        match spec_parse_string_body(s@, i as int) {
            Some(p) => r matches Some(q) && q.0@ == p.0 && q.1 as int == p.1 && i < q.1
                <= s@.len(),
            None => r is None,
        },
    decreases s@.len() - i,
{
    let n = s.unicode_len();
    if i >= n {
        return None;
    }
    let c = s.get_char(i);
    if c == '"' {
        Some((String::new(), i + 1))
    } else if c == '\\' {
        if i + 1 >= n {
            return None;
        }
        let m = match escape_char(s.get_char(i + 1)) {
            Some(m) => m,
            None => {
                return None;
            },
        };
        match parse_string_body(s, i + 2) {
            Some(p) => {
                let mut out = String::new();
                out.push(m);
                out.append(p.0.as_str());
                proof {
                    assert(out@ =~= seq![m] + p.0@);
                }
                Some((out, p.1))
            },
            None => None,
        }
    } else if (c as u32) < 32 {
        None
    } else {
        match parse_string_body(s, i + 1) {
            Some(p) => {
                let mut out = String::new();
                out.push(c);
                out.append(p.0.as_str());
                proof {
                    assert(out@ =~= seq![c] + p.0@);
                }
                Some((out, p.1))
            },
            None => None,
        }
    }
}

/// Consumes decimal digits after `i`, extending the value `acc`; fails on a
/// value that does not fit in a `u64`.
pub open spec fn spec_parse_u64_digits(s: Seq<char>, i: int, acc: u64) -> Option<(u64, int)>
    decreases s.len() - i,
{
    if 0 <= i < s.len() && is_digit_char(s[i]) {
        let v = acc * 10 + (s[i] as int - '0' as int);
        if v > u64::MAX {
            None
        } else {
            spec_parse_u64_digits(s, i + 1, v as u64)
        }
    } else {
        Some((acc, i))
    }
}

fn parse_u64_digits(s: &str, i: usize, acc: u64) -> (r: Option<(u64, usize)>)
    requires
        i <= s@.len(),
    ensures
        match spec_parse_u64_digits(s@, i as int, acc) {
            Some(p) => r matches Some(q) && q.0 == p.0 && q.1 as int == p.1 && i <= q.1
                <= s@.len(),
            None => r is None,
        },
    decreases s@.len() - i,
{
    let n = s.unicode_len();
    if i < n && is_digit(s.get_char(i)) {
        let c = s.get_char(i);
        let d = (c as u32 - '0' as u32) as u64;
        let v = match acc.checked_mul(10) {
            Some(x) => match x.checked_add(d) {
                Some(v) => v,
                None => {
                    return None;
                },
            },
            None => {
                return None;
            },
        };
        parse_u64_digits(s, i + 1, v)
    } else {
        Some((acc, i))
    }
}

/// Parses one value: a string, an unsigned integer, `true`, `false` or
/// `null`.
pub open spec fn spec_parse_value(s: Seq<char>, i: int) -> Option<(SpecJsonValue, int)> {
    if i < 0 || i >= s.len() {
        None
    } else if s[i] == '"' {
        match spec_parse_string_body(s, i + 1) {
            Some(p) => Some((SpecJsonValue::Str(p.0), p.1)),
            None => None,
        }
    } else if is_digit_char(s[i]) {
        match spec_parse_u64_digits(s, i, 0) {
            Some(p) => Some((SpecJsonValue::Num(p.0), p.1)),
            None => None,
        }
    } else if s[i] == 't' {
        if i + 4 <= s.len() && s[i + 1] == 'r' && s[i + 2] == 'u' && s[i + 3] == 'e' {
            Some((SpecJsonValue::Bool(true), i + 4))
        } else {
            None
        }
    } else if s[i] == 'f' {
        if i + 5 <= s.len() && s[i + 1] == 'a' && s[i + 2] == 'l' && s[i + 3] == 's' && s[i + 4]
            == 'e' {
            Some((SpecJsonValue::Bool(false), i + 5))
        } else {
            None
        }
    } else if s[i] == 'n' {
        if i + 4 <= s.len() && s[i + 1] == 'u' && s[i + 2] == 'l' && s[i + 3] == 'l' {
            Some((SpecJsonValue::Null, i + 4))
        } else {
            None
        }
    } else {
        None
    }
}

fn parse_value(s: &str, i: usize) -> (r: Option<(JsonValue, usize)>)
    requires
        i <= s@.len(),
    ensures
        match spec_parse_value(s@, i as int) {
            Some(p) => r matches Some(q) && q.0@ == p.0 && q.1 as int == p.1 && i <= q.1
                <= s@.len(),
            None => r is None,
        },
{
    let n = s.unicode_len();
    if i >= n {
        return None;
    }
    let c = s.get_char(i);
    if c == '"' {
        match parse_string_body(s, i + 1) {
            Some(p) => Some((JsonValue::Str(p.0), p.1)),
            None => None,
        }
    } else if is_digit(c) {
        match parse_u64_digits(s, i, 0) {
            Some(p) => Some((JsonValue::Num(p.0), p.1)),
            None => None,
        }
    } else if c == 't' {
        if n - i >= 4 && s.get_char(i + 1) == 'r' && s.get_char(i + 2) == 'u' && s.get_char(i + 3)
            == 'e' {
            Some((JsonValue::Bool(true), i + 4))
        } else {
            None
        }
    } else if c == 'f' {
        if n - i >= 5 && s.get_char(i + 1) == 'a' && s.get_char(i + 2) == 'l' && s.get_char(i + 3)
            == 's' && s.get_char(i + 4) == 'e' {
            Some((JsonValue::Bool(false), i + 5))
        } else {
            None
        }
    } else if c == 'n' {
        if n - i >= 4 && s.get_char(i + 1) == 'u' && s.get_char(i + 2) == 'l' && s.get_char(i + 3)
            == 'l' {
            Some((JsonValue::Null, i + 4))
        } else {
            None
        }
    } else {
        None
    }
}

/// Parses one `"key": value` member starting at `i`.
pub open spec fn spec_parse_member(s: Seq<char>, i: int) -> Option<
    ((Seq<char>, SpecJsonValue), int),
> {
    if 0 <= i < s.len() && s[i] == '"' {
        match spec_parse_string_body(s, i + 1) {
            Some(kp) => {
                let j = spec_skip_ws(s, kp.1);
                if 0 <= j < s.len() && s[j] == ':' {
                    let k = spec_skip_ws(s, j + 1);
                    match spec_parse_value(s, k) {
                        Some(vp) => Some(((kp.0, vp.0), vp.1)),
                        None => None,
                    }
                } else {
                    None
                }
            },
            None => None,
        }
    } else {
        None
    }
}

fn parse_member(s: &str, i: usize) -> (r: Option<((String, JsonValue), usize)>)
    requires
        i <= s@.len(),
    ensures
        match spec_parse_member(s@, i as int) {
            Some(p) => r matches Some(q) && q.0.0@ == p.0.0 && q.0.1@ == p.0.1 && q.1 as int == p.1
                && i <= q.1 <= s@.len(),
            None => r is None,
        },
{
    let n = s.unicode_len();
    if i >= n {
        return None;
    }
    if s.get_char(i) != '"' {
        return None;
    }
    let kp = match parse_string_body(s, i + 1) {
        Some(kp) => kp,
        None => {
            return None;
        },
    };
    let j = skip_ws(s, kp.1);
    if j >= n {
        return None;
    }
    if s.get_char(j) != ':' {
        return None;
    }
    let k = skip_ws(s, j + 1);
    match parse_value(s, k) {
        Some(vp) => Some(((kp.0, vp.0), vp.1)),
        None => None,
    }
}

/// Parses the members after the first one: any number of `, member`
/// repetitions and then the closing brace; yields the members and the
/// position just after the brace.
pub open spec fn spec_parse_members_rest(s: Seq<char>, i: int) -> Option<
    (Seq<(Seq<char>, SpecJsonValue)>, int),
>
    decreases s.len() - i,
{
    let j = spec_skip_ws(s, i);
    if 0 <= j < s.len() && s[j] == ',' {
        let k = spec_skip_ws(s, j + 1);
        match spec_parse_member(s, k) {
            Some(mp) => {
                if i < mp.1 <= s.len() {
                    match spec_parse_members_rest(s, mp.1) {
                        Some(rp) => Some((seq![mp.0] + rp.0, rp.1)),
                        None => None,
                    }
                } else {
                    None
                }
            },
            None => None,
        }
    } else if 0 <= j < s.len() && s[j] == '}' {
        Some((Seq::empty(), j + 1))
    } else {
        None
    }
}

fn parse_members_rest(s: &str, i: usize) -> (r: Option<(Vec<(String, JsonValue)>, usize)>)
    requires
        i <= s@.len(),
    ensures
        match spec_parse_members_rest(s@, i as int) {
            Some(p) => r matches Some(q) && kv_view(q.0@) == p.0 && q.1 as int == p.1 && i < q.1
                <= s@.len(),
            None => r is None,
        },
    decreases s@.len() - i,
{
    let n = s.unicode_len();
    let j = skip_ws(s, i);
    if j >= n {
        return None;
    }
    let c = s.get_char(j);
    if c == ',' {
        let k = skip_ws(s, j + 1);
        let mp = match parse_member(s, k) {
            Some(mp) => mp,
            None => {
                return None;
            },
        };
        if mp.1 > i {
            match parse_members_rest(s, mp.1) {
                Some(rp) => {
                    let mut members = rp.0;
                    members.insert(0, mp.0);
                    proof {
                        let smp = spec_parse_member(s@, k as int).unwrap();
                        assert(kv_view(members@) =~= seq![smp.0] + kv_view(rp.0@));
                    }
                    Some((members, rp.1))
                },
                None => None,
            }
        } else {
            None
        }
    } else if c == '}' {
        let empty_members: Vec<(String, JsonValue)> = Vec::new();
        proof {
            assert(kv_view(empty_members@) =~= Seq::<(Seq<char>, SpecJsonValue)>::empty());
        }
        Some((empty_members, j + 1))
    } else {
        None
    }
}

/// Parses a whole body as one flat object, requiring that nothing but
/// whitespace follows the closing brace.
pub open spec fn spec_parse_object(s: Seq<char>) -> Option<Seq<(Seq<char>, SpecJsonValue)>> {
    let i = spec_skip_ws(s, 0);
    if 0 <= i < s.len() && s[i] == '{' {
        let j = spec_skip_ws(s, i + 1);
        if 0 <= j < s.len() && s[j] == '}' {
            if spec_skip_ws(s, j + 1) == s.len() {
                Some(Seq::empty())
            } else {
                None
            }
        } else {
            match spec_parse_member(s, j) {
                Some(mp) => match spec_parse_members_rest(s, mp.1) {
                    Some(rp) => {
                        if spec_skip_ws(s, rp.1) == s.len() {
                            Some(seq![mp.0] + rp.0)
                        } else {
                            None
                        }
                    },
                    None => None,
                },
                None => None,
            }
        }
    } else {
        None
    }
}

/// Parses a response body as one flat JSON object.
pub fn parse_json_object(s: &str) -> (r: Option<Vec<(String, JsonValue)>>)
    ensures
        match spec_parse_object(s@) {
            Some(ms) => r matches Some(v) && kv_view(v@) == ms,
            None => r is None,
        },
{
    let n = s.unicode_len();
    let i = skip_ws(s, 0);
    if i >= n {
        return None;
    }
    if s.get_char(i) != '{' {
        return None;
    }
    let j = skip_ws(s, i + 1);
    if j < n && s.get_char(j) == '}' {
        if skip_ws(s, j + 1) == n {
            let empty_members: Vec<(String, JsonValue)> = Vec::new();
            proof {
                assert(kv_view(empty_members@) =~= Seq::<(Seq<char>, SpecJsonValue)>::empty());
            }
            return Some(empty_members);
        } else {
            return None;
        }
    }
    let mp = match parse_member(s, j) {
        Some(mp) => mp,
        None => {
            return None;
        },
    };
    let rp = match parse_members_rest(s, mp.1) {
        Some(rp) => rp,
        None => {
            return None;
        },
    };
    if skip_ws(s, rp.1) == n {
        let mut members = rp.0;
        members.insert(0, mp.0);
        proof {
            let smp = spec_parse_member(s@, j as int).unwrap();
            assert(kv_view(members@) =~= seq![smp.0] + kv_view(rp.0@));
        }
        Some(members)
    } else {
        None
    }
}

/// The value of the first member with the given key, if any.
pub open spec fn lookup_member(ms: Seq<(Seq<char>, SpecJsonValue)>, key: Seq<char>) -> Option<
    SpecJsonValue,
>
    decreases ms.len(),
{
    if ms.len() == 0 {
        None
    } else if ms[0].0 == key {
        Some(ms[0].1)
    } else {
        lookup_member(ms.skip(1), key)
    }
}

/// Finds the first member with the given key.
pub fn lookup_value<'a>(members: &'a Vec<(String, JsonValue)>, key: &str) -> (r: Option<
    &'a JsonValue,
>)
    ensures
        match lookup_member(kv_view(members@), key@) {
            Some(sv) => r matches Some(v) && v@ == sv,
            None => r is None,
        },
{
    let mut i: usize = 0;
    proof {
        assert(kv_view(members@).skip(0) =~= kv_view(members@));
    }
    while i < members.len()
        invariant
            i <= members@.len(),
            lookup_member(kv_view(members@), key@) == lookup_member(
                kv_view(members@).skip(i as int),
                key@,
            ),
        decreases members@.len() - i,
    {
        proof {
            assert(kv_view(members@).skip(i as int)[0] == (members@[i as int].0@,
            members@[i as int].1@));
            assert(kv_view(members@).skip(i as int).skip(1) =~= kv_view(members@).skip(i + 1));
        }
        if crate::util::str_eq(members[i].0.as_str(), key) {
            return Some(&members[i].1);
        }
        i = i + 1;
    }
    proof {
        assert(kv_view(members@).skip(members@.len() as int) =~= Seq::<
            (Seq<char>, SpecJsonValue),
        >::empty());
    }
    None
}

} // verus!
