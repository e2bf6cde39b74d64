//! The file encoding of a `Config`: a JSON object with the five credential
//! members as strings, in canonical order.  The encoder escapes quotes and
//! backslashes and writes every other character, control characters
//! included, as itself; the decoder accepts the five members in any
//! order, with arbitrary whitespace between tokens and the usual JSON
//! string escapes.  Decoding an encoded configuration reproduces it
//! exactly.

use vstd::prelude::*;
use vstd::string::StrSliceExecFns;
use vstd::string::StringExecFns;

use crate::errors::ApiError;
use crate::ext::push_char;
use crate::Config;

verus! {

/// The numeric value of a hexadecimal digit character, or a negative
/// number for any other character.
pub open spec fn hex_val(c: char) -> int {
    if '0' as int <= c as int && c as int <= '9' as int {
        c as int - '0' as int
    } else if 'a' as int <= c as int && c as int <= 'f' as int {
        10 + c as int - 'a' as int
    } else if 'A' as int <= c as int && c as int <= 'F' as int {
        10 + c as int - 'A' as int
    } else {
        -1
    }
}

/// How one character is written inside an encoded string: quote and
/// backslash get a backslash escape, and everything else stands for
/// itself.
pub open spec fn escaped_char(c: char) -> Seq<char> {
    if c == '"' {
        seq!['\\', '"']
    } else if c == '\\' {
        seq!['\\', '\\']
    } else {
        seq![c]
    }
}

/// The encoded form of a string's characters.
pub open spec fn escaped(s: Seq<char>) -> Seq<char>
    decreases s.len(),
{
    if s.len() == 0 {
        Seq::<char>::empty()
    } else {
        escaped_char(s[0]) + escaped(s.skip(1))
    }
}

/// One encoded object member: the quoted key, a colon, and the quoted
/// escaped value.
pub open spec fn member_enc(qkey: Seq<char>, v: Seq<char>) -> Seq<char> {
    qkey + seq![':', '"'] + escaped(v) + seq!['"']
}

/// The canonical encoding of a configuration.
pub open spec fn encoded_config(c: Config) -> Seq<char> {
    seq!['{'] + member_enc("\"username\""@, c.username@) + seq![','] + member_enc(
        "\"password\""@,
        c.password@,
    ) + seq![','] + member_enc("\"user_agent\""@, c.user_agent@) + seq![','] + member_enc(
        "\"client_id\""@,
        c.client_id@,
    ) + seq![','] + member_enc("\"client_secret\""@, c.client_secret@) + seq!['}']
}

/// The whitespace characters tolerated between tokens.
pub open spec fn is_ws(c: char) -> bool {
    c == ' ' || c == '\n' || c == '\r' || c == '\t'
}

/// The input with its leading whitespace removed.
pub open spec fn spec_skip_ws(s: Seq<char>) -> Seq<char>
    decreases s.len(),
{
    if s.len() > 0 && is_ws(s[0]) {
        spec_skip_ws(s.skip(1))
    } else {
        s
    }
}

/// After optional whitespace the input starts with the given token, which
/// is consumed.
pub open spec fn spec_expect(s: Seq<char>, lit: Seq<char>) -> Option<Seq<char>> {
    let t = spec_skip_ws(s);
    if t.len() >= lit.len() && t.take(lit.len() as int) == lit {
        Some(t.skip(lit.len() as int))
    } else {
        None
    }
}

/// The single-character escapes the decoder accepts, written after a
/// backslash.
pub open spec fn is_simple_escape(e: char) -> bool {
    e == '"' || e == '\\' || e == '/' || e == 'n' || e == 't' || e == 'r' || e == 'b' || e == 'f'
}

/// The character a single-character escape stands for.
pub open spec fn unescaped_char(e: char) -> char {
    if e == 'n' {
        '\n'
    } else if e == 't' {
        '\t'
    } else if e == 'r' {
        '\r'
    } else if e == 'b' {
        '\u{8}'
    } else if e == 'f' {
        '\u{c}'
    } else {
        e
    }
}

/// Decodes a string body: the input starts right after the opening quote,
/// and the result is the decoded value together with the input left after
/// the closing quote.  Truncated input and unknown escapes decode to
/// nothing; of the `\u` escapes exactly the `\u00XX` forms are accepted.
pub open spec fn spec_string_body(s: Seq<char>) -> Option<(Seq<char>, Seq<char>)>
    decreases s.len(),
{
    if s.len() == 0 {
        None
    } else if s[0] == '"' {
        Some((Seq::<char>::empty(), s.skip(1)))
    } else if s[0] == '\\' {
        if s.len() < 2 {
            None
        } else if is_simple_escape(s[1]) {
            match spec_string_body(s.skip(2)) {
                Some((v, rem)) => Some((seq![unescaped_char(s[1])] + v, rem)),
                None => None,
            }
        } else if s[1] == 'u' {
            if s.len() < 6 {
                None
            } else if s[2] == '0' && s[3] == '0' && hex_val(s[4]) >= 0 && hex_val(s[5]) >= 0 {
                match spec_string_body(s.skip(6)) {
                    Some((v, rem)) => Some(
                        (seq![((hex_val(s[4]) * 16 + hex_val(s[5])) as u8) as char] + v, rem),
                    ),
                    None => None,
                }
            } else {
                None
            }
        } else {
            None
        }
    } else {
        match spec_string_body(s.skip(1)) {
            Some((v, rem)) => Some((seq![s[0]] + v, rem)),
            None => None,
        }
    }
}

/// Decodes one object member, whatever its key: a quoted key, a colon,
/// and a quoted string value.
pub open spec fn spec_any_member(s: Seq<char>) -> Option<((Seq<char>, Seq<char>), Seq<char>)> {
    match spec_expect(s, seq!['"']) {
        Some(t0) => match spec_string_body(t0) {
            Some((key, t1)) => match spec_expect(t1, seq![':']) {
                Some(t2) => match spec_expect(t2, seq!['"']) {
                    Some(t3) => match spec_string_body(t3) {
                        Some((v, rest)) => Some(((key, v), rest)),
                        None => None,
                    },
                    None => None,
                },
                None => None,
            },
            None => None,
        },
        None => None,
    }
}

/// Decodes `k` comma-separated members, collecting the key and value
/// pairs in order.
pub open spec fn spec_members(s: Seq<char>, k: nat) -> Option<
    (Seq<(Seq<char>, Seq<char>)>, Seq<char>),
>
    decreases k,
{
    if k == 0 {
        Some((Seq::<(Seq<char>, Seq<char>)>::empty(), s))
    } else {
        match spec_any_member(s) {
            Some((kv, rest)) => if k == 1 {
                Some((seq![kv], rest))
            } else {
                match spec_expect(rest, seq![',']) {
                    Some(rest2) => match spec_members(rest2, (k - 1) as nat) {
                        Some((tail, rest3)) => Some((seq![kv] + tail, rest3)),
                        None => None,
                    },
                    None => None,
                }
            },
            None => None,
        }
    }
}

/// The value of the first member with this key.
pub open spec fn spec_find(pairs: Seq<(Seq<char>, Seq<char>)>, key: Seq<char>) -> Option<Seq<char>>
    decreases pairs.len(),
{
    if pairs.len() == 0 {
        None
    } else if pairs[0].0 == key {
        Some(pairs[0].1)
    } else {
        spec_find(pairs.skip(1), key)
    }
}

/// The decoded fields of a configuration, as character sequences.
pub struct ConfigV {
    /// Account username
    pub username: Seq<char>,
    /// Account password
    pub password: Seq<char>,
    /// User agent to use
    pub user_agent: Seq<char>,
    /// App client id
    pub client_id: Seq<char>,
    /// App client secret
    pub client_secret: Seq<char>,
}

/// The fields of a configuration, as character sequences.
pub open spec fn config_views(c: Config) -> ConfigV {
    ConfigV {
        username: c.username@,
        password: c.password@,
        user_agent: c.user_agent@,
        client_id: c.client_id@,
        client_secret: c.client_secret@,
    }
}

/// Escaping a string one character longer appends that character's
/// escape.
pub proof fn lemma_escaped_snoc(a: Seq<char>, x: char)
    ensures
        escaped(a.push(x)) == escaped(a) + escaped_char(x),
    decreases a.len(),
{
    if a.len() == 0 {
        let s = a.push(x);
        assert(s[0] == x);
        assert(s.skip(1) =~= Seq::<char>::empty());
        assert(escaped(Seq::<char>::empty()) == Seq::<char>::empty());
        assert(escaped(s) == escaped_char(x) + escaped(Seq::<char>::empty()));
        assert(escaped_char(x) + Seq::<char>::empty() =~= escaped_char(x));
        assert(escaped(a) == Seq::<char>::empty());
        assert(Seq::<char>::empty() + escaped_char(x) =~= escaped_char(x));
    } else {
        assert(a.push(x).skip(1) =~= a.skip(1).push(x));
        lemma_escaped_snoc(a.skip(1), x);
        assert(escaped_char(a[0]) + (escaped(a.skip(1)) + escaped_char(x)) =~= (escaped_char(a[0])
            + escaped(a.skip(1))) + escaped_char(x));
    }
}

/// Writes the encoded form of a string's characters.
pub fn escape_str(s: &str) -> (r: String)
    ensures
        r@ == escaped(s@),
{
    let n = s.unicode_len();
    let mut r = String::new();
    let mut i: usize = 0;
    proof {
        assert(s@.take(0) =~= Seq::<char>::empty());
    }
    while i < n
        invariant
            i <= n,
            n == s@.len(),
            r@ == escaped(s@.take(i as int)),
        decreases n - i,
    {
        let c = s.get_char(i);
        if c == '"' {
            push_char(&mut r, '\\');
            push_char(&mut r, '"');
        } else if c == '\\' {
            push_char(&mut r, '\\');
            push_char(&mut r, '\\');
        } else {
            push_char(&mut r, c);
        }
        proof {
            lemma_escaped_snoc(s@.take(i as int), c);
            assert(s@.take(i + 1) =~= s@.take(i as int).push(c));
            assert(r@ =~= escaped(s@.take(i as int)) + escaped_char(c));
        }
        i = i + 1;
    }
    proof {
        assert(s@.take(n as int) =~= s@);
    }
    r
}

/// Writes the canonical encoding of a configuration.
pub fn encode_config(c: &Config) -> (r: String)
    ensures
        r@ == encoded_config(*c),
{
    let mut r = "{\"username\":\"".to_owned();
    let e1 = escape_str(c.username.as_str());
    r.append(e1.as_str());
    r.append("\",\"password\":\"");
    let e2 = escape_str(c.password.as_str());
    r.append(e2.as_str());
    r.append("\",\"user_agent\":\"");
    let e3 = escape_str(c.user_agent.as_str());
    r.append(e3.as_str());
    r.append("\",\"client_id\":\"");
    let e4 = escape_str(c.client_id.as_str());
    r.append(e4.as_str());
    r.append("\",\"client_secret\":\"");
    let e5 = escape_str(c.client_secret.as_str());
    r.append(e5.as_str());
    r.append("\"}");
    proof {
        reveal_strlit("{\"username\":\"");
        reveal_strlit("\",\"password\":\"");
        reveal_strlit("\",\"user_agent\":\"");
        reveal_strlit("\",\"client_id\":\"");
        reveal_strlit("\",\"client_secret\":\"");
        reveal_strlit("\"}");
        reveal_strlit("\"username\"");
        reveal_strlit("\"password\"");
        reveal_strlit("\"user_agent\"");
        reveal_strlit("\"client_id\"");
        reveal_strlit("\"client_secret\"");
        assert(r@ =~= encoded_config(*c));
    }
    r
}

/// Decodes a whole configuration: one object of exactly five members,
/// in any order, with nothing but whitespace after it, carrying each of
/// the five keys exactly once (with five members, each key is found only
/// when none repeats).
pub open spec fn spec_parse_config(s: Seq<char>) -> Option<ConfigV> {
    match spec_expect(s, seq!['{']) {
        Some(t0) => match spec_members(t0, 5) {
            Some((pairs, t5)) => match spec_expect(t5, seq!['}']) {
                Some(t6) => if spec_skip_ws(t6).len() == 0 {
                    match (
                        spec_find(pairs, "username"@),
                        spec_find(pairs, "password"@),
                        spec_find(pairs, "user_agent"@),
                        spec_find(pairs, "client_id"@),
                        spec_find(pairs, "client_secret"@),
                    ) {
                        (
                            Some(username),
                            Some(password),
                            Some(user_agent),
                            Some(client_id),
                            Some(client_secret),
                        ) => Some(
                            ConfigV { username, password, user_agent, client_id, client_secret },
                        ),
                        _ => None,
                    }
                } else {
                    None
                },
                None => None,
            },
            None => None,
        },
        None => None,
    }
}

/// Skipping whitespace leaves an input that starts with none untouched.
pub proof fn lemma_skip_ws_head(s: Seq<char>)
    requires
        s.len() == 0 || !is_ws(s[0]),
    ensures
        spec_skip_ws(s) == s,
{
}

/// Expecting a token at the head of an input that carries it verbatim
/// consumes exactly that token.
pub proof fn lemma_expect_exact(lit: Seq<char>, rest: Seq<char>)
    requires
        lit.len() > 0,
        !is_ws(lit[0]),
    ensures
        spec_expect(lit + rest, lit) == Some(rest),
{
    let s = lit + rest;
    assert(s[0] == lit[0]);
    lemma_skip_ws_head(s);
    assert(s.take(lit.len() as int) =~= lit);
    assert(s.skip(lit.len() as int) =~= rest);
}

/// Decoding inverts encoding for a string body: the escaped value followed
/// by the closing quote decodes to the value, leaving the rest untouched.
pub proof fn lemma_body_unescape(v: Seq<char>, rest: Seq<char>)
    ensures
        spec_string_body(escaped(v) + seq!['"'] + rest) == Some((v, rest)),
    decreases v.len(),
{
    let s = escaped(v) + seq!['"'] + rest;
    if v.len() == 0 {
        assert(escaped(v) == Seq::<char>::empty());
        assert(s =~= seq!['"'] + rest);
        assert(s[0] == '"');
        assert(s.skip(1) =~= rest);
    } else {
        let c = v[0];
        let tail = escaped(v.skip(1)) + seq!['"'] + rest;
        lemma_body_unescape(v.skip(1), rest);
        assert(escaped(v) == escaped_char(c) + escaped(v.skip(1)));
        assert(s =~= escaped_char(c) + tail);
        assert(seq![c] + v.skip(1) =~= v);
        if c == '"' {
            assert(s[0] == '\\' && s[1] == '"');
            assert(s.len() >= 2);
            assert(s.skip(2) =~= tail);
            assert(unescaped_char('"') == c);
        } else if c == '\\' {
            assert(s[0] == '\\' && s[1] == '\\');
            assert(s.skip(2) =~= tail);
            assert(unescaped_char('\\') == c);
        } else {
            assert(s[0] == c);
            assert(s.skip(1) =~= tail);
        }
    }
}

/// A string without quotes and backslashes is its own encoding.
pub proof fn lemma_plain_escaped(k: Seq<char>)
    requires
        forall|i: int| 0 <= i < k.len() ==> k[i] != '"' && k[i] != '\\',
    ensures
        escaped(k) == k,
    decreases k.len(),
{
    if k.len() == 0 {
    } else {
        lemma_plain_escaped(k.skip(1));
        assert(escaped_char(k[0]) =~= seq![k[0]]);
        assert(seq![k[0]] + k.skip(1) =~= k);
    }
}

/// Decoding one member of the canonical encoding yields the key and the
/// value, leaving the rest untouched, for keys free of quotes and
/// backslashes.
pub proof fn lemma_any_member_canonical(key: Seq<char>, v: Seq<char>, rest: Seq<char>)
    requires
        forall|i: int| 0 <= i < key.len() ==> key[i] != '"' && key[i] != '\\',
    ensures
        spec_any_member(
            seq!['"'] + key + seq!['"'] + seq![':'] + seq!['"'] + escaped(v) + seq!['"'] + rest,
        ) == Some(((key, v), rest)),
{
    let s = seq!['"'] + key + seq!['"'] + seq![':'] + seq!['"'] + escaped(v) + seq!['"'] + rest;
    let r1 = key + (seq!['"'] + (seq![':'] + (seq!['"'] + (escaped(v) + (seq!['"'] + rest)))));
    assert(s =~= seq!['"'] + r1);
    lemma_expect_exact(seq!['"'], r1);
    lemma_plain_escaped(key);
    let r2 = seq![':'] + (seq!['"'] + (escaped(v) + (seq!['"'] + rest)));
    assert(r1 =~= escaped(key) + seq!['"'] + r2);
    lemma_body_unescape(key, r2);
    let r3 = seq!['"'] + (escaped(v) + (seq!['"'] + rest));
    assert(r2 =~= seq![':'] + r3);
    lemma_expect_exact(seq![':'], r3);
    let r4 = escaped(v) + (seq!['"'] + rest);
    assert(r3 =~= seq!['"'] + r4);
    lemma_expect_exact(seq!['"'], r4);
    assert(r4 =~= escaped(v) + seq!['"'] + rest);
    lemma_body_unescape(v, rest);
}

/// Decoding an encoded configuration reproduces its fields exactly.
#[verifier::rlimit(80)]
pub proof fn lemma_config_round_trip(c: Config)
    ensures
        spec_parse_config(encoded_config(c)) == Some(config_views(c)),
{
    reveal_strlit("username");
    reveal_strlit("password");
    reveal_strlit("user_agent");
    reveal_strlit("client_id");
    reveal_strlit("client_secret");
    reveal_strlit("\"username\"");
    reveal_strlit("\"password\"");
    reveal_strlit("\"user_agent\"");
    reveal_strlit("\"client_id\"");
    reveal_strlit("\"client_secret\"");
    let k1 = "username"@;
    let k2 = "password"@;
    let k3 = "user_agent"@;
    let k4 = "client_id"@;
    let k5 = "client_secret"@;
    let v1 = c.username@;
    let v2 = c.password@;
    let v3 = c.user_agent@;
    let v4 = c.client_id@;
    let v5 = c.client_secret@;
    assert("\"username\""@ =~= seq!['"'] + k1 + seq!['"']);
    assert("\"password\""@ =~= seq!['"'] + k2 + seq!['"']);
    assert("\"user_agent\""@ =~= seq!['"'] + k3 + seq!['"']);
    assert("\"client_id\""@ =~= seq!['"'] + k4 + seq!['"']);
    assert("\"client_secret\""@ =~= seq!['"'] + k5 + seq!['"']);
    assert(forall|i: int| 0 <= i < k1.len() ==> k1[i] != '"' && k1[i] != '\\');
    assert(forall|i: int| 0 <= i < k2.len() ==> k2[i] != '"' && k2[i] != '\\');
    assert(forall|i: int| 0 <= i < k3.len() ==> k3[i] != '"' && k3[i] != '\\');
    assert(forall|i: int| 0 <= i < k4.len() ==> k4[i] != '"' && k4[i] != '\\');
    assert(forall|i: int| 0 <= i < k5.len() ==> k5[i] != '"' && k5[i] != '\\');
    let s = encoded_config(c);
    let m1 = member_enc("\"username\""@, v1);
    let m2 = member_enc("\"password\""@, v2);
    let m3 = member_enc("\"user_agent\""@, v3);
    let m4 = member_enc("\"client_id\""@, v4);
    let m5 = member_enc("\"client_secret\""@, v5);

    // the last member, followed by the closing brace
    let t5 = m5 + seq!['}'];
    lemma_any_member_canonical(k5, v5, seq!['}']);
    assert(t5 =~= seq!['"'] + k5 + seq!['"'] + seq![':'] + seq!['"'] + escaped(v5) + seq!['"']
        + seq!['}']);
    assert(spec_members(t5, 1) == Some((seq![(k5, v5)], seq!['}'])));

    // the fourth member, a comma, and the rest
    let r4 = seq![','] + t5;
    let t4 = m4 + r4;
    lemma_any_member_canonical(k4, v4, r4);
    assert(t4 =~= seq!['"'] + k4 + seq!['"'] + seq![':'] + seq!['"'] + escaped(v4) + seq!['"']
        + r4);
    lemma_expect_exact(seq![','], t5);
    assert(spec_members(t4, 2) == Some((seq![(k4, v4)] + seq![(k5, v5)], seq!['}'])));

    let r3 = seq![','] + t4;
    let t3 = m3 + r3;
    lemma_any_member_canonical(k3, v3, r3);
    assert(t3 =~= seq!['"'] + k3 + seq!['"'] + seq![':'] + seq!['"'] + escaped(v3) + seq!['"']
        + r3);
    lemma_expect_exact(seq![','], t4);
    assert(spec_members(t3, 3) == Some(
        (seq![(k3, v3)] + (seq![(k4, v4)] + seq![(k5, v5)]), seq!['}']),
    ));

    let r2 = seq![','] + t3;
    let t2 = m2 + r2;
    lemma_any_member_canonical(k2, v2, r2);
    assert(t2 =~= seq!['"'] + k2 + seq!['"'] + seq![':'] + seq!['"'] + escaped(v2) + seq!['"']
        + r2);
    lemma_expect_exact(seq![','], t3);
    assert(spec_members(t2, 4) == Some(
        (seq![(k2, v2)] + (seq![(k3, v3)] + (seq![(k4, v4)] + seq![(k5, v5)])), seq!['}']),
    ));

    let r1 = seq![','] + t2;
    let t1 = m1 + r1;
    lemma_any_member_canonical(k1, v1, r1);
    assert(t1 =~= seq!['"'] + k1 + seq!['"'] + seq![':'] + seq!['"'] + escaped(v1) + seq!['"']
        + r1);
    lemma_expect_exact(seq![','], t2);
    assert(spec_members(t1, 5) == Some(
        (
            seq![(k1, v1)] + (seq![(k2, v2)] + (seq![(k3, v3)] + (seq![(k4, v4)] + seq![
                (k5, v5),
            ]))),
            seq!['}'],
        ),
    ));

    assert(s =~= seq!['{'] + t1);
    lemma_expect_exact(seq!['{'], t1);

    let pairs = seq![(k1, v1), (k2, v2), (k3, v3), (k4, v4), (k5, v5)];
    assert(seq![(k1, v1)] + (seq![(k2, v2)] + (seq![(k3, v3)] + (seq![(k4, v4)] + seq![
        (k5, v5),
    ]))) =~= pairs);

    assert(seq!['}'] =~= seq!['}'] + Seq::<char>::empty());
    lemma_expect_exact(seq!['}'], Seq::<char>::empty());
    assert(spec_skip_ws(Seq::<char>::empty()).len() == 0);

    // each key is found at its position: the keys are pairwise distinct
    assert(k1 != k2) by {
        if k1 == k2 {
            assert(k1[0] == k2[0]);
        }
    }
    let p1 = pairs.skip(1);
    let p2 = p1.skip(1);
    let p3 = p2.skip(1);
    let p4 = p3.skip(1);
    assert(p1 =~= seq![(k2, v2), (k3, v3), (k4, v4), (k5, v5)]);
    assert(p2 =~= seq![(k3, v3), (k4, v4), (k5, v5)]);
    assert(p3 =~= seq![(k4, v4), (k5, v5)]);
    assert(p4 =~= seq![(k5, v5)]);
    assert(spec_find(p4, k5) == Some(v5));
    assert(spec_find(p3, k4) == Some(v4));
    assert(spec_find(p3, k5) == Some(v5));
    assert(spec_find(p2, k3) == Some(v3));
    assert(spec_find(p2, k4) == Some(v4));
    assert(spec_find(p2, k5) == Some(v5));
    assert(spec_find(p1, k2) == Some(v2));
    assert(spec_find(p1, k3) == Some(v3));
    assert(spec_find(p1, k4) == Some(v4));
    assert(spec_find(p1, k5) == Some(v5));
    assert(spec_find(pairs, k1) == Some(v1));
    assert(spec_find(pairs, k2) == Some(v2));
    assert(spec_find(pairs, k3) == Some(v3));
    assert(spec_find(pairs, k4) == Some(v4));
    assert(spec_find(pairs, k5) == Some(v5));

    assert(spec_parse_config(s) == Some(config_views(c)));
}

/// Whether a character is decoder whitespace.
fn is_ws_char(c: char) -> (b: bool)
    ensures
        b == is_ws(c),
{
    c == ' ' || c == '\n' || c == '\r' || c == '\t'
}

/// Advances past whitespace.
fn skip_ws_exec(s: &str, i: usize) -> (j: usize)
    requires
        i <= s@.len(),
    ensures
        i <= j <= s@.len(),
        s@.skip(j as int) == spec_skip_ws(s@.skip(i as int)),
{
    let n = s.unicode_len();
    let mut j = i;
    while j < n && is_ws_char(s.get_char(j))
        invariant
            i <= j <= n,
            n == s@.len(),
            spec_skip_ws(s@.skip(i as int)) == spec_skip_ws(s@.skip(j as int)),
        decreases n - j,
    {
        proof {
            assert(s@.skip(j as int)[0] == s@[j as int]);
            assert(s@.skip(j as int).skip(1) =~= s@.skip(j + 1));
        }
        j = j + 1;
    }
    proof {
        if j < n {
            assert(s@.skip(j as int)[0] == s@[j as int]);
        }
        assert(spec_skip_ws(s@.skip(j as int)) == s@.skip(j as int));
    }
    j
}

/// Consumes the given token after optional whitespace, or reports that it
/// is not there.
fn expect_lit(s: &str, i: usize, lit: &str) -> (r: Option<usize>)
    requires
        i <= s@.len(),
    ensures
        match r {
            Some(j) => j <= s@.len() && spec_expect(s@.skip(i as int), lit@) == Some(
                s@.skip(j as int),
            ),
            None => spec_expect(s@.skip(i as int), lit@) is None,
        },
{
    let n = s.unicode_len();
    let j = skip_ws_exec(s, i);
    let ghost t = spec_skip_ws(s@.skip(i as int));
    if crate::strutil::match_at_exec(s, lit, j) {
        proof {
            assert(t.take(lit@.len() as int) =~= s@.subrange(j as int, j + lit@.len()));
            assert(t.skip(lit@.len() as int) =~= s@.skip(j + lit@.len()));
        }
        Some(j + lit.unicode_len())
    } else {
        proof {
            if t.len() >= lit@.len() && t.take(lit@.len() as int) == lit@ {
                assert(s@.subrange(j as int, j + lit@.len()) =~= t.take(lit@.len() as int));
                assert(crate::strutil::match_at(s@, lit@, j as int));
            }
        }
        None
    }
}

/// The numeric value of a hexadecimal digit character.
fn hex_val_exec(c: char) -> (r: Option<u8>)
    ensures
        r is Some <==> hex_val(c) >= 0,
        r is Some ==> r->Some_0 as int == hex_val(c),
{
    let x = c as u32;
    if '0' as u32 <= x && x <= '9' as u32 {
        Some((x - '0' as u32) as u8)
    } else if 'a' as u32 <= x && x <= 'f' as u32 {
        Some((10 + x - 'a' as u32) as u8)
    } else if 'A' as u32 <= x && x <= 'F' as u32 {
        Some((10 + x - 'A' as u32) as u8)
    } else {
        None
    }
}

/// The character a single-character escape stands for.
fn unescape_simple(e: char) -> (u: char)
    ensures
        u == unescaped_char(e),
{
    match e {
        'n' => '\n',
        't' => '\t',
        'r' => '\r',
        'b' => '\u{8}',
        'f' => '\u{c}',
        _ => e,
    }
}

/// Decodes a string body starting right after the opening quote; on
/// success the decoded value is returned with the position right after
/// the closing quote.
fn parse_string_body(s: &str, i: usize) -> (r: Option<(String, usize)>)
    requires
        i <= s@.len(),
    ensures
        match r {
            Some(p) => p.1 <= s@.len() && (match spec_string_body(s@.skip(i as int)) {
                Some((v, rem)) => p.0@ == v && s@.skip(p.1 as int) == rem,
                None => false,
            }),
            None => spec_string_body(s@.skip(i as int)) is None,
        },
{
    let n = s.unicode_len();
    let mut out = String::new();
    let mut j = i;
    proof {
        if spec_string_body(s@.skip(i as int)) is Some {
            let v = spec_string_body(s@.skip(i as int))->Some_0.0;
            assert(Seq::<char>::empty() + v =~= v);
        }
    }
    while j < n
        invariant
            i <= j <= n,
            n == s@.len(),
            match spec_string_body(s@.skip(i as int)) {
                Some((v, rem)) => match spec_string_body(s@.skip(j as int)) {
                    Some((v2, rem2)) => v == out@ + v2 && rem == rem2,
                    None => false,
                },
                None => spec_string_body(s@.skip(j as int)) is None,
            },
        decreases n - j,
    {
        let ghost tail = s@.skip(j as int);
        let ghost out0 = out@;
        let c = s.get_char(j);
        proof {
            assert(tail[0] == c);
        }
        if c == '"' {
            proof {
                assert(tail.skip(1) =~= s@.skip(j + 1));
                assert(out0 + Seq::<char>::empty() =~= out0);
            }
            return Some((out, j + 1));
        } else if c == '\\' {
            if j + 1 >= n {
                proof {
                    assert(tail.len() < 2);
                }
                return None;
            }
            let e = s.get_char(j + 1);
            proof {
                assert(tail[1] == e);
            }
            if e == '"' || e == '\\' || e == '/' || e == 'n' || e == 't' || e == 'r' || e == 'b'
                || e == 'f' {
                let u = unescape_simple(e);
                push_char(&mut out, u);
                proof {
                    assert(tail.skip(2) =~= s@.skip(j + 2));
                    if spec_string_body(s@.skip(j + 2)) is Some {
                        let v2 = spec_string_body(s@.skip(j + 2))->Some_0.0;
                        assert(out0 + (seq![u] + v2) =~= out0.push(u) + v2);
                    }
                }
                j = j + 2;
            } else if e == 'u' {
                if n - j < 6 {
                    proof {
                        assert(tail.len() < 6);
                    }
                    return None;
                }
                let c2 = s.get_char(j + 2);
                let c3 = s.get_char(j + 3);
                let h1 = hex_val_exec(s.get_char(j + 4));
                let h2 = hex_val_exec(s.get_char(j + 5));
                proof {
                    assert(tail[2] == s@[j + 2] && tail[3] == s@[j + 3] && tail[4] == s@[j + 4]
                        && tail[5] == s@[j + 5]);
                }
                if c2 == '0' && c3 == '0' && h1.is_some() && h2.is_some() {
                    let d1 = h1.unwrap();
                    let d2 = h2.unwrap();
                    let code: u8 = d1 * 16 + d2;
                    push_char(&mut out, code as char);
                    proof {
                        assert(tail.skip(6) =~= s@.skip(j + 6));
                        if spec_string_body(s@.skip(j + 6)) is Some {
                            let v2 = spec_string_body(s@.skip(j + 6))->Some_0.0;
                            assert(out0 + (seq![code as char] + v2) =~= out0.push(code as char)
                                + v2);
                        }
                    }
                    j = j + 6;
                } else {
                    return None;
                }
            } else {
                return None;
            }
        } else {
            push_char(&mut out, c);
            proof {
                assert(tail.skip(1) =~= s@.skip(j + 1));
                if spec_string_body(s@.skip(j + 1)) is Some {
                    let v2 = spec_string_body(s@.skip(j + 1))->Some_0.0;
                    assert(out0 + (seq![c] + v2) =~= out0.push(c) + v2);
                }
            }
            j = j + 1;
        }
    }
    proof {
        assert(s@.skip(j as int).len() == 0);
    }
    None
}

/// Decodes one member after optional whitespace, whatever its key: the
/// quoted key, a colon, and a quoted string value.
fn parse_any_member(s: &str, i: usize) -> (r: Option<(String, String, usize)>)
    requires
        i <= s@.len(),
    ensures
        match r {
            Some(p) => p.2 <= s@.len() && (match spec_any_member(s@.skip(i as int)) {
                Some((kv, rem)) => p.0@ == kv.0 && p.1@ == kv.1 && s@.skip(p.2 as int) == rem,
                None => false,
            }),
            None => spec_any_member(s@.skip(i as int)) is None,
        },
{
    proof {
        reveal_strlit(":");
        reveal_strlit("\"");
        assert(":"@ =~= seq![':']);
        assert("\""@ =~= seq!['"']);
    }
    let j0 = match expect_lit(s, i, "\"") {
        Some(j) => j,
        None => {
            return None;
        },
    };
    let (key, j1) = match parse_string_body(s, j0) {
        Some(p) => p,
        None => {
            return None;
        },
    };
    let j2 = match expect_lit(s, j1, ":") {
        Some(j) => j,
        None => {
            return None;
        },
    };
    let j3 = match expect_lit(s, j2, "\"") {
        Some(j) => j,
        None => {
            return None;
        },
    };
    match parse_string_body(s, j3) {
        Some((v, j4)) => Some((key, v, j4)),
        None => None,
    }
}

/// Looks the value of the first member with this key up.
fn find_value(pairs: &Vec<(String, String)>, key: &str) -> (r: Option<String>)
    ensures
        r is Some <==> spec_find(crate::pairs_view(pairs@), key@) is Some,
        r is Some ==> r->Some_0@ == spec_find(crate::pairs_view(pairs@), key@)->Some_0,
{
    let wanted = key.to_owned();
    let mut i: usize = 0;
    proof {
        assert(crate::pairs_view(pairs@).skip(0) =~= crate::pairs_view(pairs@));
    }
    while i < pairs.len()
        invariant
            i <= pairs@.len(),
            wanted@ == key@,
            spec_find(crate::pairs_view(pairs@), key@) == spec_find(
                crate::pairs_view(pairs@).skip(i as int),
                key@,
            ),
        decreases pairs@.len() - i,
    {
        let ghost tail = crate::pairs_view(pairs@).skip(i as int);
        proof {
            assert(tail[0] == crate::pairs_view(pairs@)[i as int]);
            assert(tail.skip(1) =~= crate::pairs_view(pairs@).skip(i + 1));
        }
        if pairs[i].0 == wanted {
            return Some(pairs[i].1.clone());
        }
        i = i + 1;
    }
    proof {
        assert(crate::pairs_view(pairs@).skip(i as int).len() == 0);
    }
    None
}

impl Config {
    /// Decodes a configuration from its file encoding; content that is no
    /// valid encoding is reported as a decode failure.
    #[verifier::loop_isolation(false)]
    pub fn from_json_str(s: &str) -> (r: Result<Config, ApiError>)
        ensures
            r is Ok <==> spec_parse_config(s@) is Some,
            r is Ok ==> {
                let cv = spec_parse_config(s@)->Some_0;
                &&& r->Ok_0.username@ == cv.username
                &&& r->Ok_0.password@ == cv.password
                &&& r->Ok_0.user_agent@ == cv.user_agent
                &&& r->Ok_0.client_id@ == cv.client_id
                &&& r->Ok_0.client_secret@ == cv.client_secret
            },
            r is Err ==> r->Err_0.source@ == "serde_json::error::Error"@,
    {
        proof {
            reveal_strlit("{");
            reveal_strlit("}");
            reveal_strlit(",");
            assert("{"@ =~= seq!['{']);
            assert("}"@ =~= seq!['}']);
            assert(","@ =~= seq![',']);
            assert(s@.skip(0) =~= s@);
        }
        let j_open = match expect_lit(s, 0, "{") {
            Some(j) => j,
            None => {
                return Err(Self::bad_encoding());
            },
        };
        let ghost j0 = j_open as int;
        let mut pairs: Vec<(String, String)> = Vec::new();
        let mut j = j_open;
        let mut k: usize = 0;
        proof {
            if spec_members(s@.skip(j0), 5) is Some {
                let ps = spec_members(s@.skip(j0), 5)->Some_0.0;
                assert(crate::pairs_view(pairs@) + ps =~= ps);
            }
        }
        while k < 5
            invariant
                k <= 5,
                j <= s@.len(),
                match spec_members(s@.skip(j0), 5) {
                    Some((ps, rest)) => match spec_members(s@.skip(j as int), (5 - k) as nat) {
                        Some((ps2, rest2)) => ps == crate::pairs_view(pairs@) + ps2 && rest
                            == rest2,
                        None => false,
                    },
                    None => spec_members(s@.skip(j as int), (5 - k) as nat) is None,
                },
            decreases 5 - k,
        {
            let ghost jpre = j as int;
            let ghost rem = (5 - k) as nat;
            let ghost pre_pairs = pairs@;
            let (key, v, j2) = match parse_any_member(s, j) {
                Some(p) => p,
                None => {
                    proof {
                        assert(rem >= 1);
                        assert(spec_any_member(s@.skip(jpre)) is None);
                        assert(spec_members(s@.skip(jpre), rem) is None);
                        assert(spec_members(s@.skip(j0), 5) is None);
                        assert(spec_expect(s@, seq!['{']) == Some(s@.skip(j0)));
                        assert(spec_parse_config(s@) is None);
                    }
                    return Err(Self::bad_encoding());
                },
            };
            let ghost gkv = (key@, v@);
            proof {
                assert(spec_any_member(s@.skip(jpre)) == Some((gkv, s@.skip(j2 as int))));
            }
            pairs.push((key, v));
            proof {
                assert(crate::pairs_view(pairs@) =~= crate::pairs_view(pre_pairs).push(gkv));
            }
            if k < 4 {
                j = match expect_lit(s, j2, ",") {
                    Some(x) => x,
                    None => {
                        proof {
                            assert(rem >= 2);
                            assert(spec_expect(s@.skip(j2 as int), seq![',']) is None);
                            assert(spec_members(s@.skip(jpre), rem) is None);
                            assert(spec_members(s@.skip(j0), 5) is None);
                            assert(spec_expect(s@, seq!['{']) == Some(s@.skip(j0)));
                            assert(spec_parse_config(s@) is None);
                        }
                        return Err(Self::bad_encoding());
                    },
                };
                proof {
                    assert(rem >= 2);
                    assert(spec_expect(s@.skip(j2 as int), seq![',']) == Some(s@.skip(j as int)));
                    assert(spec_members(s@.skip(jpre), rem) == (match spec_members(
                        s@.skip(j as int),
                        (rem - 1) as nat,
                    ) {
                        Some((tail, r3)) => Some((seq![gkv] + tail, r3)),
                        None => None,
                    }));
                    if spec_members(s@.skip(j as int), (rem - 1) as nat) is Some {
                        let tail = spec_members(s@.skip(j as int), (rem - 1) as nat)->Some_0.0;
                        assert(crate::pairs_view(pre_pairs) + (seq![gkv] + tail)
                            =~= crate::pairs_view(pre_pairs).push(gkv) + tail);
                    }
                    assert((rem - 1) as nat == (5 - (k + 1)) as nat);
                }
            } else {
                j = j2;
                proof {
                    assert(rem == 1);
                    assert(spec_members(s@.skip(jpre), rem) == Some(
                        (seq![gkv], s@.skip(j as int)),
                    ));
                    assert(spec_members(s@.skip(j as int), 0) == Some(
                        (Seq::<(Seq<char>, Seq<char>)>::empty(), s@.skip(j as int)),
                    ));
                    assert(crate::pairs_view(pre_pairs) + seq![gkv]
                        =~= crate::pairs_view(pre_pairs).push(gkv) + Seq::<
                        (Seq<char>, Seq<char>),
                    >::empty());
                }
            }
            k = k + 1;
        }
        proof {
            assert(spec_members(s@.skip(j as int), 0) == Some(
                (Seq::<(Seq<char>, Seq<char>)>::empty(), s@.skip(j as int)),
            ));
            if spec_members(s@.skip(j0), 5) is Some {
                let ps = spec_members(s@.skip(j0), 5)->Some_0.0;
                assert(crate::pairs_view(pairs@) + Seq::<(Seq<char>, Seq<char>)>::empty()
                    =~= crate::pairs_view(pairs@));
            }
        }
        let j_close = match expect_lit(s, j, "}") {
            Some(x) => x,
            None => {
                return Err(Self::bad_encoding());
            },
        };
        let j_end = skip_ws_exec(s, j_close);
        if j_end < s.unicode_len() {
            return Err(Self::bad_encoding());
        }
        let username = match find_value(&pairs, "username") {
            Some(u) => u,
            None => {
                return Err(Self::bad_encoding());
            },
        };
        let password = match find_value(&pairs, "password") {
            Some(u) => u,
            None => {
                return Err(Self::bad_encoding());
            },
        };
        let user_agent = match find_value(&pairs, "user_agent") {
            Some(u) => u,
            None => {
                return Err(Self::bad_encoding());
            },
        };
        let client_id = match find_value(&pairs, "client_id") {
            Some(u) => u,
            None => {
                return Err(Self::bad_encoding());
            },
        };
        let client_secret = match find_value(&pairs, "client_secret") {
            Some(u) => u,
            None => {
                return Err(Self::bad_encoding());
            },
        };
        Ok(Config { username, password, user_agent, client_id, client_secret })
    }

    fn bad_encoding() -> (e: ApiError)
        ensures
            e.source@ == "serde_json::error::Error"@,
    {
        ApiError {
            source: "serde_json::error::Error".to_owned(),
            message: "Config content is not a valid encoding".to_owned(),
        }
    }
}

} // verus!
