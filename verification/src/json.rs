use vstd::prelude::*;

verus! {

/// A JSON document as the library reads it: the tree that `serde_json`
/// produces, with numbers kept in their printed form and the members of an
/// object in the order in which `serde_json` iterates them.
#[derive(Debug, PartialEq)]
pub enum Json {
    Null,
    Bool(bool),
    Number(String),
    Str(String),
    Array(Vec<Json>),
    Object(Vec<JsonMember>),
}

/// One `"key": value` member of a JSON object.
#[derive(Debug, PartialEq)]
pub struct JsonMember {
    pub key: String,
    pub value: Json,
}

/// The value stored under `key` among `members`: the first member with that
/// key (in a document from `serde_json` keys are unique).
pub open spec fn member_lookup(members: Seq<JsonMember>, key: Seq<char>) -> Option<Json>
    decreases members.len(),
{
    if members.len() == 0 {
        None
    } else if members[0].key@ == key {
        Some(members[0].value)
    } else {
        member_lookup(members.drop_first(), key)
    }
}

/// Replace each non-overlapping occurrence of the two-character pattern
/// `a b`, scanning from the left, by the character `r` (`str::replace`).
pub open spec fn replace_pair(s: Seq<char>, a: char, b: char, r: char) -> Seq<char>
    decreases s.len(),
{
    if s.len() == 0 {
        s
    } else if s.len() >= 2 && s[0] == a && s[1] == b {
        seq![r] + replace_pair(s.skip(2), a, b, r)
    } else {
        seq![s[0]] + replace_pair(s.drop_first(), a, b, r)
    }
}

/// A JSON-pointer reference token with its escapes undone:
/// `~1` becomes `/`, then `~0` becomes `~`.
pub open spec fn unescape_token(t: Seq<char>) -> Seq<char> {
    replace_pair(replace_pair(t, '~', '1', '/'), '~', '0', '~')
}

/// `s` cut at every `/` (`str::split('/')`): `""` gives one empty piece and
/// `"a/"` gives `"a"` and `""`.
pub open spec fn split_slash(s: Seq<char>) -> Seq<Seq<char>>
    decreases s.len(),
{
    if s.len() == 0 {
        seq![Seq::<char>::empty()]
    } else {
        let r = split_slash(s.drop_last());
        if s.last() == '/' {
            r.push(Seq::<char>::empty())
        } else {
            r.update(r.len() - 1, r.last().push(s.last()))
        }
    }
}

/// An array index written in a JSON pointer: decimal digits, no sign, no
/// leading zero except for `0` itself, and small enough for a `usize`.
pub open spec fn parse_index(t: Seq<char>) -> Option<nat> {
    if t.len() == 0 || (t[0] == '0' && t.len() != 1) || !(forall|i: int|
        0 <= i < t.len() ==> crate::text::is_digit(#[trigger] t[i])) || crate::text::digits_value(t)
        > usize::MAX {
        None
    } else {
        Some(crate::text::digits_value(t) as nat)
    }
}

/// One step of a JSON pointer: a member of an object, or an element of an
/// array named by its index; nothing inside any other value.
pub open spec fn pointer_step(v: Json, token: Seq<char>) -> Option<Json> {
    match v {
        Json::Object(members) => member_lookup(members@, token),
        Json::Array(items) => match parse_index(token) {
            Some(i) => if i < items@.len() {
                Some(items@[i as int])
            } else {
                None
            },
            None => None,
        },
        _ => None,
    }
}

/// Follow the (still escaped) reference tokens one after the other.
pub open spec fn follow_tokens(v: Json, tokens: Seq<Seq<char>>) -> Option<Json>
    decreases tokens.len(),
{
    if tokens.len() == 0 {
        Some(v)
    } else {
        match pointer_step(v, unescape_token(tokens[0])) {
            Some(w) => follow_tokens(w, tokens.drop_first()),
            None => None,
        }
    }
}

/// The value that the JSON pointer `p` (RFC 6901) addresses inside `v`:
/// the empty pointer addresses `v` itself, a pointer that does not start
/// with `/` addresses nothing.
pub open spec fn json_pointer(v: Json, p: Seq<char>) -> Option<Json> {
    if p.len() == 0 {
        Some(v)
    } else if p[0] != '/' {
        None
    } else {
        follow_tokens(v, split_slash(p.drop_first()))
    }
}

/// The member `key` of an object; nothing for any other value.
pub open spec fn json_get(v: Json, key: Seq<char>) -> Option<Json> {
    match v {
        Json::Object(members) => member_lookup(members@, key),
        _ => None,
    }
}

/// The text of a JSON string; nothing for any other value.
pub open spec fn json_str(v: Json) -> Option<Seq<char>> {
    match v {
        Json::Str(s) => Some(s@),
        _ => None,
    }
}

/// The text of the JSON string that `w` holds, if `w` holds one.
pub open spec fn opt_str(w: Option<Json>) -> Option<Seq<char>> {
    match w {
        Some(v) => json_str(v),
        None => None,
    }
}

/// What `serde_json::from_str::<serde_json::Value>` makes of a text: the
/// document, or the text of its error.
pub uninterp spec fn serde_parse(text: Seq<char>) -> Result<Json, Seq<char>>;

#[verifier::external_type_specification]
#[verifier::external_body]
pub struct ExSerdeValue(serde_json::Value);

/// Parse a JSON text with `serde_json::from_str` into a `serde_json::Value`
/// and hand back the same tree as a `Json` (or the error's `Display` text).
/// Claimed: the result is `serde_parse` of the text, a function of the
/// text alone; nothing is claimed of what that function is.
#[verifier::external_body]
pub fn parse_json(text: &str) -> (r: Result<Json, String>)
    ensures
        match r {
            Ok(v) => serde_parse(text@) == Ok::<Json, Seq<char>>(v),
            Err(e) => serde_parse(text@) == Err::<Json, Seq<char>>(e@),
        },
{
    match serde_json::from_str::<serde_json::Value>(text) {
        Ok(value) => Ok(json_from_serde(&value)),
        Err(e) => Err(e.to_string()),
    }
}

/// Copy of a `serde_json::Value` as a `Json`, variant for variant, members
/// in the order of `serde_json::Map::iter`, numbers by their `Display`
/// text. Used by `parse_json` only; nothing is claimed of it beyond what
/// `parse_json` claims.
#[verifier::external_body]
fn json_from_serde(value: &serde_json::Value) -> Json {
    match value {
        serde_json::Value::Null => Json::Null,
        serde_json::Value::Bool(b) => Json::Bool(*b),
        serde_json::Value::Number(n) => Json::Number(n.to_string()),
        serde_json::Value::String(s) => Json::Str(s.clone()),
        serde_json::Value::Array(items) => Json::Array(items.iter().map(json_from_serde).collect()),
        serde_json::Value::Object(map) => Json::Object(
            map.iter().map(|(k, v)| JsonMember { key: k.clone(), value: json_from_serde(v) }).collect(),
        ),
    }
}

/// The characters of a text.
pub fn text_chars(s: &str) -> (v: Vec<char>)
    ensures
        v@ == s@,
{
    let n = s.unicode_len();
    let mut v: Vec<char> = Vec::new();
    let mut i: usize = 0;
    while i < n
        invariant
            n == s@.len(),
            i <= n,
            v@ == s@.take(i as int),
        decreases n - i,
    {
        let c = s.get_char(i);
        v.push(c);
        i = i + 1;
        assert(v@ =~= s@.take(i as int));
    }
    assert(s@.take(n as int) =~= s@);
    v
}

/// Whether a text equals a sequence of characters.
pub fn text_is(s: &str, cs: &Vec<char>) -> (r: bool)
    ensures
        r == (s@ == cs@),
{
    let n = s.unicode_len();
    if n != cs.len() {
        return false;
    }
    let mut i: usize = 0;
    while i < n
        invariant
            n == s@.len(),
            n == cs@.len(),
            i <= n,
            forall|k: int| 0 <= k < i ==> s@[k] == cs@[k],
        decreases n - i,
    {
        if s.get_char(i) != cs[i] {
            return false;
        }
        i = i + 1;
    }
    assert(s@ =~= cs@);
    true
}

fn lookup_member<'a>(members: &'a Vec<JsonMember>, key: &Vec<char>) -> (r: Option<&'a Json>)
    ensures
        match r {
            Some(v) => member_lookup(members@, key@) == Some(*v),
            None => member_lookup(members@, key@) is None,
        },
{
    let n = members.len();
    let mut i: usize = 0;
    assert(members@.skip(0) =~= members@);
    while i < n
        invariant
            n == members@.len(),
            i <= n,
            member_lookup(members@, key@) == member_lookup(members@.skip(i as int), key@),
        decreases n - i,
    {
        let ghost rest = members@.skip(i as int);
        assert(rest.drop_first() =~= members@.skip(i + 1));
        if text_is(members[i].key.as_str(), key) {
            return Some(&members[i].value);
        }
        i = i + 1;
    }
    assert(members@.skip(n as int) =~= Seq::<JsonMember>::empty());
    None
}

fn unescape_pair(s: &Vec<char>, a: char, b: char, r: char) -> (out: Vec<char>)
    ensures
        out@ == replace_pair(s@, a, b, r),
{
    let n = s.len();
    let mut out: Vec<char> = Vec::new();
    let mut i: usize = 0;
    assert(s@.skip(0) =~= s@);
    while i < n
        invariant
            n == s@.len(),
            i <= n,
            out@ + replace_pair(s@.skip(i as int), a, b, r) == replace_pair(s@, a, b, r),
        decreases n - i,
    {
        let ghost rest = s@.skip(i as int);
        if i + 1 < n && s[i] == a && s[i + 1] == b {
            assert(rest.skip(2) =~= s@.skip(i + 2));
            out.push(r);
            i = i + 2;
        } else {
            assert(rest.drop_first() =~= s@.skip(i + 1));
            out.push(s[i]);
            i = i + 1;
        }
        assert(out@ + replace_pair(s@.skip(i as int), a, b, r) =~= replace_pair(s@, a, b, r));
    }
    assert(s@.skip(n as int) =~= Seq::<char>::empty());
    assert(out@ + replace_pair(s@.skip(n as int), a, b, r) =~= out@);
    out
}

proof fn lemma_digits_value_grows(t: Seq<char>, i: int)
    requires
        0 <= i <= t.len(),
        forall|k: int| 0 <= k < t.len() ==> crate::text::is_digit(#[trigger] t[k]),
    ensures
        crate::text::digits_value(t.take(i)) <= crate::text::digits_value(t),
        0 <= crate::text::digits_value(t.take(i)),
    decreases t.len() - i,
{
    if i < t.len() {
        lemma_digits_value_grows(t, i + 1);
        let p = t.take(i + 1);
        assert(p.drop_last() =~= t.take(i));
        assert(p.last() == t[i]);
        assert(crate::text::is_digit(t[i]));
    } else {
        assert(t.take(i) =~= t);
        lemma_digits_value_nonneg(t);
    }
}

proof fn lemma_digits_value_nonneg(t: Seq<char>)
    requires
        forall|k: int| 0 <= k < t.len() ==> crate::text::is_digit(#[trigger] t[k]),
    ensures
        0 <= crate::text::digits_value(t),
    decreases t.len(),
{
    if t.len() > 0 {
        let p = t.drop_last();
        assert(forall|k: int| 0 <= k < p.len() ==> p[k] == t[k]);
        lemma_digits_value_nonneg(p);
        assert(crate::text::is_digit(t[t.len() - 1]));
    }
}

fn digit_of(c: char) -> (d: Option<usize>)
    ensures
        match d {
            Some(x) => crate::text::is_digit(c) && x == crate::text::char_value(c),
            None => !crate::text::is_digit(c),
        },
{
    if c == '0' { Some(0) }
    else if c == '1' { Some(1) }
    else if c == '2' { Some(2) }
    else if c == '3' { Some(3) }
    else if c == '4' { Some(4) }
    else if c == '5' { Some(5) }
    else if c == '6' { Some(6) }
    else if c == '7' { Some(7) }
    else if c == '8' { Some(8) }
    else if c == '9' { Some(9) }
    else { None }
}

fn index_of_token(t: &Vec<char>) -> (r: Option<usize>)
    ensures
        match r {
            Some(i) => parse_index(t@) == Some(i as nat),
            None => parse_index(t@) is None,
        },
{
    let n = t.len();
    if n == 0 || (t[0] == '0' && n != 1) {
        return None;
    }
    let mut value: usize = 0;
    let mut i: usize = 0;
    while i < n
        invariant
            n == t@.len(),
            n > 0,
            !(t@[0] == '0' && n != 1),
            i <= n,
            forall|k: int| 0 <= k < i ==> crate::text::is_digit(#[trigger] t@[k]),
            value == crate::text::digits_value(t@.take(i as int)),
        decreases n - i,
    {
        let ghost p = t@.take(i + 1);
        assert(p.drop_last() =~= t@.take(i as int));
        match digit_of(t[i]) {
            None => {
                assert(!crate::text::is_digit(t@[i as int]));
                return None;
            },
            Some(d) => {
                let ghost val = crate::text::digits_value(p);
                assert(val == value * 10 + d);
                let m = value.checked_mul(10);
                match m {
                    None => {
                        return overflow_or_junk(t, i);
                    },
                    Some(m) => {
                        match m.checked_add(d) {
                            None => {
                                return overflow_or_junk(t, i);
                            },
                            Some(v) => {
                                value = v;
                            },
                        }
                    },
                }
            },
        }
        i = i + 1;
    }
    assert(t@.take(n as int) =~= t@);
    Some(value)
}

/// Once the prefix `t[..=i]` (all digits) exceeds `usize::MAX`, the token
/// names no index: either a later character is not a digit, or the whole
/// number is at least as large.
fn overflow_or_junk(t: &Vec<char>, i: usize) -> (r: Option<usize>)
    requires
        i < t@.len(),
        forall|k: int| 0 <= k <= i ==> crate::text::is_digit(#[trigger] t@[k]),
        crate::text::digits_value(t@.take(i + 1)) > usize::MAX,
    ensures
        r is None,
        parse_index(t@) is None,
{
    let n = t.len();
    let mut j: usize = i + 1;
    while j < n
        invariant
            n == t@.len(),
            i < j <= n,
            forall|k: int| 0 <= k < j ==> crate::text::is_digit(#[trigger] t@[k]),
        decreases n - j,
    {
        match digit_of(t[j]) {
            None => {
                return None;
            },
            Some(_) => {},
        }
        j = j + 1;
    }
    proof {
        lemma_digits_value_grows(t@, i + 1);
    }
    None
}

impl Json {
    /// `serde_json::Value::get` with a key: the member `key` of an object.
    pub fn get(&self, key: &str) -> (r: Option<&Json>)
        ensures
            match r {
                Some(v) => json_get(*self, key@) == Some(*v),
                None => json_get(*self, key@) is None,
            },
    {
        match self {
            Json::Object(members) => {
                let k = text_chars(key);
                lookup_member(members, &k)
            },
            _ => None,
        }
    }

    /// `serde_json::Value::as_str`: the text of a JSON string.
    pub fn as_str(&self) -> (r: Option<&str>)
        ensures
            match r {
                Some(s) => json_str(*self) == Some(s@),
                None => json_str(*self) is None,
            },
    {
        match self {
            Json::Str(s) => Some(s.as_str()),
            _ => None,
        }
    }

    fn step(&self, token: &Vec<char>) -> (r: Option<&Json>)
        ensures
            match r {
                Some(v) => pointer_step(*self, token@) == Some(*v),
                None => pointer_step(*self, token@) is None,
            },
    {
        match self {
            Json::Object(members) => lookup_member(members, token),
            Json::Array(items) => match index_of_token(token) {
                Some(i) => if i < items.len() {
                    Some(&items[i])
                } else {
                    None
                },
                None => None,
            },
            _ => None,
        }
    }

    /// `serde_json::Value::pointer`: the value that a JSON pointer
    /// (RFC 6901) addresses.
    pub fn pointer(&self, ptr: &str) -> (r: Option<&Json>)
        ensures
            match r {
                Some(v) => json_pointer(*self, ptr@) == Some(*v),
                None => json_pointer(*self, ptr@) is None,
            },
    {
        let cs = text_chars(ptr);
        if cs.len() == 0 {
            return Some(self);
        }
        if cs[0] != '/' {
            return None;
        }
        let tokens = split_tokens(&cs);
        let ghost toks = split_slash(cs@.drop_first());
        let mut cur: &Json = self;
        let mut i: usize = 0;
        let n = tokens.len();
        assert(toks.skip(0) =~= toks);
        while i < n
            invariant
                n == tokens@.len(),
                n == toks.len(),
                forall|k: int| 0 <= k < n ==> (#[trigger] tokens@[k])@ == toks[k],
                i <= n,
                json_pointer(*self, ptr@) == follow_tokens(*cur, toks.skip(i as int)),
            decreases n - i,
        {
            let ghost rest = toks.skip(i as int);
            assert(rest.drop_first() =~= toks.skip(i + 1));
            assert(rest[0] == toks[i as int]);
            let once = unescape_pair(&tokens[i], '~', '1', '/');
            let token = unescape_pair(&once, '~', '0', '~');
            match cur.step(&token) {
                Some(next) => {
                    cur = next;
                },
                None => {
                    return None;
                },
            }
            i = i + 1;
        }
        assert(toks.skip(n as int) =~= Seq::<Seq<char>>::empty());
        Some(cur)
    }
}

/// Cut the characters after the leading `/` at every `/`.
fn split_tokens(cs: &Vec<char>) -> (tokens: Vec<Vec<char>>)
    requires
        cs@.len() > 0,
    ensures
        tokens@.len() == split_slash(cs@.drop_first()).len(),
        forall|k: int| 0 <= k < tokens@.len() ==> (#[trigger] tokens@[k])@ == split_slash(cs@.drop_first())[k],
{
    let ghost s = cs@.drop_first();
    let n = cs.len();
    let mut done: Vec<Vec<char>> = Vec::new();
    let mut cur: Vec<char> = Vec::new();
    let mut i: usize = 1;
    assert(s.take(0) =~= Seq::<char>::empty());
    while i < n
        invariant
            n == cs@.len(),
            s == cs@.drop_first(),
            1 <= i <= n,
            done@.len() + 1 == split_slash(s.take(i - 1)).len(),
            forall|k: int| 0 <= k < done@.len() ==> (#[trigger] done@[k])@ == split_slash(s.take(i - 1))[k],
            cur@ == split_slash(s.take(i - 1)).last(),
        decreases n - i,
    {
        let ghost before = s.take(i - 1);
        let ghost after = s.take(i as int);
        assert(after.drop_last() =~= before);
        assert(after.last() == cs@[i as int]);
        if cs[i] == '/' {
            done.push(cur);
            cur = Vec::new();
        } else {
            cur.push(cs[i]);
        }
        i = i + 1;
    }
    assert(s.take(n - 1) =~= s);
    done.push(cur);
    done
}

/// Follow the pointer `q` from the value that `o` holds, if any.
pub open spec fn pointer_from(o: Option<Json>, q: Seq<char>) -> Option<Json> {
    match o {
        Some(w) => json_pointer(w, q),
        None => None,
    }
}

proof fn lemma_split_nonempty(s: Seq<char>)
    ensures
        split_slash(s).len() > 0,
    decreases s.len(),
{
    if s.len() > 0 {
        lemma_split_nonempty(s.drop_last());
    }
}

/// Cutting `a / b` at every slash gives the pieces of `a` followed by the
/// pieces of `b`.
proof fn lemma_split_concat(a: Seq<char>, b: Seq<char>)
    ensures
        split_slash(a + seq!['/'] + b) == split_slash(a) + split_slash(b),
    decreases b.len(),
{
    let x = a + seq!['/'] + b;
    if b.len() == 0 {
        assert(x.drop_last() =~= a);
        assert(split_slash(x) =~= split_slash(a) + split_slash(b));
    } else {
        let b1 = b.drop_last();
        lemma_split_concat(a, b1);
        lemma_split_nonempty(b1);
        assert(x.drop_last() =~= a + seq!['/'] + b1);
        assert(x.last() == b.last());
        let r = split_slash(a) + split_slash(b1);
        assert(split_slash(x.drop_last()) == r);
        if b.last() == '/' {
            assert(split_slash(x) =~= split_slash(a) + split_slash(b));
        } else {
            let sb1 = split_slash(b1);
            assert(r.last() == sb1.last());
            assert(split_slash(b) == sb1.update(sb1.len() - 1, sb1.last().push(b.last())));
            assert(split_slash(x) =~= split_slash(a) + split_slash(b));
        }
    }
}

/// Following `t1` and then `t2` is following them one after the other.
proof fn lemma_follow_concat(v: Json, t1: Seq<Seq<char>>, t2: Seq<Seq<char>>)
    ensures
        follow_tokens(v, t1 + t2) == match follow_tokens(v, t1) {
            Some(w) => follow_tokens(w, t2),
            None => None,
        },
    decreases t1.len(),
{
    if t1.len() == 0 {
        assert(t1 + t2 =~= t2);
    } else {
        assert((t1 + t2)[0] == t1[0]);
        assert((t1 + t2).drop_first() =~= t1.drop_first() + t2);
        match pointer_step(v, unescape_token(t1[0])) {
            Some(w) => {
                lemma_follow_concat(w, t1.drop_first(), t2);
            },
            None => {},
        }
    }
}

/// JSON pointers compose: following the pointer `p` followed by the pointer
/// `q` addresses the same value as following `p` and then, from there, `q`.
pub proof fn lemma_pointer_concat(v: Json, p: Seq<char>, q: Seq<char>)
    requires
        p.len() == 0 || p[0] == '/',
        q.len() == 0 || q[0] == '/',
    ensures
        json_pointer(v, p + q) == pointer_from(json_pointer(v, p), q),
{
    if q.len() == 0 {
        assert(p + q =~= p);
        match json_pointer(v, p) {
            Some(w) => {},
            None => {},
        }
    } else if p.len() == 0 {
        assert(p + q =~= q);
    } else {
        let a = p.drop_first();
        let b = q.drop_first();
        assert((p + q)[0] == '/');
        assert((p + q).drop_first() =~= a + seq!['/'] + b);
        lemma_split_concat(a, b);
        lemma_follow_concat(v, split_slash(a), split_slash(b));
    }
}

/// `t` holds neither `/` nor `~`: a reference token that needs no escaping.
pub open spec fn plain_token(t: Seq<char>) -> bool {
    forall|i: int| 0 <= i < t.len() ==> t[i] != '/' && t[i] != '~'
}

proof fn lemma_split_plain(t: Seq<char>)
    requires
        forall|i: int| 0 <= i < t.len() ==> t[i] != '/',
    ensures
        split_slash(t) == seq![t],
    decreases t.len(),
{
    if t.len() > 0 {
        let t1 = t.drop_last();
        assert(forall|i: int| 0 <= i < t1.len() ==> t1[i] == t[i]);
        lemma_split_plain(t1);
        assert(t1.push(t.last()) =~= t);
        assert(split_slash(t) =~= seq![t]);
    } else {
        assert(t =~= Seq::<char>::empty());
    }
}

proof fn lemma_replace_plain(t: Seq<char>, b: char, r: char)
    requires
        forall|i: int| 0 <= i < t.len() ==> t[i] != '~',
    ensures
        replace_pair(t, '~', b, r) == t,
    decreases t.len(),
{
    if t.len() > 0 {
        let t1 = t.drop_first();
        assert(forall|i: int| 0 <= i < t1.len() ==> t1[i] == t[i + 1]);
        lemma_replace_plain(t1, b, r);
        assert(seq![t[0]] + t1 =~= t);
    }
}

/// A pointer of one plain token addresses what one step with that token does.
pub proof fn lemma_pointer_one_token(v: Json, t: Seq<char>)
    requires
        plain_token(t),
    ensures
        json_pointer(v, seq!['/'] + t) == pointer_step(v, t),
{
    let p = seq!['/'] + t;
    assert(p.drop_first() =~= t);
    lemma_split_plain(t);
    lemma_replace_plain(t, '1', '/');
    lemma_replace_plain(t, '0', '~');
    assert(unescape_token(t) == t);
    let toks = split_slash(t);
    assert(toks[0] == t);
    assert(toks.drop_first() =~= Seq::<Seq<char>>::empty());
    match pointer_step(v, t) {
        Some(w) => {
            assert(follow_tokens(w, toks.drop_first()) == Some(w));
        },
        None => {},
    }
}

/// A step with a token that does not start with a digit is a member lookup:
/// it finds nothing inside an array.
pub proof fn lemma_step_is_get(v: Json, t: Seq<char>)
    requires
        t.len() > 0,
        !crate::text::is_digit(t[0]),
    ensures
        pointer_step(v, t) == json_get(v, t),
{
    assert(parse_index(t) is None);
}

/// A pointer of one plain member name, not starting with a digit, is
/// `Value::get` with that name.
pub proof fn lemma_pointer_member(v: Json, t: Seq<char>)
    requires
        plain_token(t),
        t.len() > 0,
        !crate::text::is_digit(t[0]),
    ensures
        json_pointer(v, seq!['/'] + t) == json_get(v, t),
{
    lemma_pointer_one_token(v, t);
    lemma_step_is_get(v, t);
}

} // verus!
