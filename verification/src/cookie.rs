use vstd::prelude::*;
use vstd::string::StrSliceExecFns;

use crate::text::{
    push_char, chars_of, find_char, has_char, is_white_space, lemma_find_char, lemma_find_char_at, trim, trim_end,
    trim_start, white_space,
};

verus! {

/// The value of a `name=value` pair `t`: what follows the first `=`, when what precedes
/// it is exactly `name`.
pub open spec fn pair_value(t: Seq<char>, name: Seq<char>) -> Option<Seq<char>> {
    let k = find_char(t, '=');
    if k < t.len() && t.take(k) == name {
        Some(t.skip(k + 1))
    } else {
        None
    }
}

/// The value of the cookie `name` in a `Cookie` header `s`: the header is cut at each `;`,
/// each piece is trimmed and cut at its first `=`, and the first piece whose key is
/// exactly `name` gives its value.
pub open spec fn find_cookie(s: Seq<char>, name: Seq<char>) -> Option<Seq<char>>
    decreases s.len(),
{
    let e = find_char(s, ';');
    match pair_value(trim(s.take(e)), name) {
        Some(v) => Some(v),
        None => if e >= s.len() {
            None
        } else {
            proof {
                lemma_find_char(s, ';');
            }
            find_cookie(s.skip(e + 1), name)
        },
    }
}

/// Whether `cs[from..to]` is exactly `name`.
fn range_equals(cs: &Vec<char>, from: usize, to: usize, name: &Vec<char>) -> (b: bool)
    requires
        from <= to <= cs.len(),
    ensures
        b == (cs@.subrange(from as int, to as int) == name@),
{
    if to - from != name.len() {
        return false;
    }
    let mut i: usize = 0;
    while i < name.len()
        invariant
            from <= to <= cs.len(),
            to - from == name.len(),
            i <= name.len(),
            forall|k: int| 0 <= k < i ==> cs@[from + k] == name@[k],
        decreases name.len() - i,
    {
        if cs[from + i] != name[i] {
            assert(cs@.subrange(from as int, to as int)[i as int] != name@[i as int]);
            return false;
        }
        i = i + 1;
    }
    assert(cs@.subrange(from as int, to as int) =~= name@);
    true
}

/// The value of the cookie `name` in the `Cookie` header `header`, if it has one.
pub fn cookie<'a>(header: Option<&'a str>, name: &str) -> (r: Option<&'a str>)
    ensures
        header is None ==> r is None,
        header matches Some(h) ==> match find_cookie(h@, name@) {
            Some(v) => r matches Some(x) && x@ == v,
            None => r is None,
        },
{
    let h = match header {
        Some(h) => h,
        None => return None,
    };
    let cs = chars_of(h);
    let nm = chars_of(name);
    let n = cs.len();
    let mut start: usize = 0;
    assert(h@.skip(0) =~= h@);
    loop
        invariant
            header == Some(h),
            cs@ == h@,
            nm@ == name@,
            n == cs.len(),
            start <= n,
            find_cookie(h@, name@) == find_cookie(h@.skip(start as int), name@),
        decreases n - start,
    {
        let ghost rest = h@.skip(start as int);
        // the piece up to the next ';'
        let mut end: usize = start;
        while end < n && cs[end] != ';'
            invariant
                cs@ == h@,
                n == cs.len(),
                start <= end <= n,
                forall|k: int| start <= k < end ==> cs@[k] != ';',
            decreases n - end,
        {
            end = end + 1;
        }
        proof {
            assert forall|k: int| 0 <= k < end - start implies rest[k] != ';' by {
                assert(rest[k] == cs@[start + k]);
            }
            lemma_find_char_at(rest, ';', end - start);
            assert(rest.take(end - start) =~= cs@.subrange(start as int, end as int));
        }
        let ghost seg = cs@.subrange(start as int, end as int);
        // leading white space
        let mut a: usize = start;
        while a < end && white_space(cs[a])
            invariant
                cs@ == h@,
                start <= a <= end <= n == cs.len(),
                seg == cs@.subrange(start as int, end as int),
                trim_start(seg) == trim_start(cs@.subrange(a as int, end as int)),
            decreases end - a,
        {
            assert(cs@.subrange(a as int, end as int).drop_first() =~= cs@.subrange(
                a + 1,
                end as int,
            ));
            a = a + 1;
        }
        // trailing white space
        let mut b: usize = end;
        while b > a && white_space(cs[b - 1])
            invariant
                cs@ == h@,
                start <= a <= b <= end <= n == cs.len(),
                trim_end(cs@.subrange(a as int, end as int)) == trim_end(
                    cs@.subrange(a as int, b as int),
                ),
            decreases b - a,
        {
            assert(cs@.subrange(a as int, b as int).drop_last() =~= cs@.subrange(
                a as int,
                b - 1,
            ));
            b = b - 1;
        }
        assert(trim(seg) == cs@.subrange(a as int, b as int));
        // the first '='
        let mut e: usize = a;
        while e < b && cs[e] != '='
            invariant
                cs@ == h@,
                a <= e <= b <= n == cs.len(),
                forall|k: int| a <= k < e ==> cs@[k] != '=',
            decreases b - e,
        {
            e = e + 1;
        }
        let ghost t = cs@.subrange(a as int, b as int);
        proof {
            assert forall|k: int| 0 <= k < e - a implies t[k] != '=' by {
                assert(t[k] == cs@[a + k]);
            }
            lemma_find_char_at(t, '=', e - a);
            assert(t.take(e - a) =~= cs@.subrange(a as int, e as int));
            if e < b {
                assert(t.skip(e - a + 1) =~= cs@.subrange(e + 1, b as int));
            }
        }
        if e < b && range_equals(&cs, a, e, &nm) {
            let v = h.substring_char(e + 1, b);
            return Some(v);
        }
        if end == n {
            return None;
        }
        proof {
            assert(rest.skip(end - start + 1) =~= h@.skip(end + 1));
        }
        start = end + 1;
    }
}

/// A byte that a header value may hold and still be read as text: visible ASCII or a tab.
pub open spec fn is_visible_ascii(b: u8) -> bool {
    (32 <= b && b < 127) || b == 9
}

/// The text of a raw header value, as `HeaderValue::to_str` reads it: the bytes as
/// characters when every byte is visible ASCII or a tab; `None` otherwise.
pub open spec fn header_chars(raw: Seq<u8>) -> Option<Seq<char>> {
    if forall|i: int| 0 <= i < raw.len() ==> is_visible_ascii(#[trigger] raw[i]) {
        Some(raw.map_values(|b: u8| b as char))
    } else {
        None
    }
}

/// The text of the raw header value `raw`, if it can be read as text.
pub fn header_text(raw: &[u8]) -> (r: Option<String>)
    ensures
        match header_chars(raw@) {
            Some(t) => r matches Some(s) && s@ == t,
            None => r is None,
        },
{
    let mut s = String::new();
    for i in 0..raw.len()
        invariant
            s@.len() == i,
            forall|k: int| 0 <= k < i ==> is_visible_ascii(#[trigger] raw@[k]),
            forall|k: int| 0 <= k < i ==> #[trigger] s@[k] == raw@[k] as char,
    {
        let b: u8 = raw[i];
        if !((32 <= b && b < 127) || b == 9) {
            return None;
        }
        push_char(&mut s, b as char);
    }
    assert(s@ =~= raw@.map_values(|b: u8| b as char));
    Some(s)
}

/// The name of the session cookie.
pub const COOKIE_NAME: &'static str = "aio_session";

/// ` Secure` is added to the cookie's attributes when the service runs behind HTTPS.
pub open spec fn secure_attribute(secure: bool) -> Seq<char> {
    if secure {
        "; Secure"@
    } else {
        Seq::empty()
    }
}

/// The `Set-Cookie` value that hands a session `token` to a client for seven days.
pub open spec fn session_cookie_text(token: Seq<char>, secure: bool) -> Seq<char> {
    COOKIE_NAME@ + "="@ + token + "; Path=/; HttpOnly; SameSite=Lax; Max-Age=604800"@
        + secure_attribute(secure)
}

/// The `Set-Cookie` value that makes a client drop its session cookie.
pub open spec fn expired_cookie_text(secure: bool) -> Seq<char> {
    COOKIE_NAME@ + "=; Path=/; HttpOnly; SameSite=Lax; Max-Age=0"@ + secure_attribute(secure)
}

/// The `name=value` pair of a `Set-Cookie` value, which a client stores and sends back.
pub open spec fn stored_pair(set_cookie: Seq<char>) -> Seq<char> {
    set_cookie.take(find_char(set_cookie, ';'))
}

proof fn lemma_trim_unchanged(t: Seq<char>)
    requires
        t.len() > 0,
        !is_white_space(t[0]),
        !is_white_space(t.last()),
    ensures
        trim(t) == t,
{
}

/// A pair `name=token`, followed by nothing or by `;` and attributes, is found by its name
/// and gives `token` back.
proof fn lemma_find_pair(name: Seq<char>, token: Seq<char>, rest: Seq<char>)
    requires
        name.len() > 0,
        !is_white_space(name[0]),
        !has_char(name, ';'),
        !has_char(name, '='),
        !has_char(token, ';'),
        token.len() == 0 || !is_white_space(token.last()),
        rest.len() == 0 || rest[0] == ';',
    ensures
        find_cookie(name + "="@ + token + rest, name) == Some(token),
{
    reveal_strlit("=");
    let pair = name + "="@ + token;
    let s = pair + rest;
    let e = pair.len() as int;
    assert forall|k: int| 0 <= k < e implies s[k] != ';' by {
        if k < name.len() {
            assert(s[k] == name[k]);
        } else if k > name.len() {
            assert(s[k] == token[k - name.len() - 1]);
        }
    }
    lemma_find_char_at(s, ';', e);
    assert(s.take(e) =~= pair);
    if token.len() == 0 {
        assert(pair.last() == '=');
    } else {
        assert(pair.last() == token.last());
    }
    assert(pair[0] == name[0]);
    lemma_trim_unchanged(pair);
    assert forall|k: int| 0 <= k < name.len() implies pair[k] != '=' by {
        assert(pair[k] == name[k]);
    }
    lemma_find_char_at(pair, '=', name.len() as int);
    assert(pair.take(name.len() as int) =~= name);
    assert(pair.skip(name.len() as int + 1) =~= token);
}

/// A session cookie gives its token back: a client that stores the `name=value` pair of
/// the `Set-Cookie` value and sends it in a `Cookie` header is found to hold `token`, as
/// long as the token holds no `;` and does not end in white space; so is a client that
/// sends the whole value.
pub proof fn session_cookie_round_trip(token: Seq<char>, secure: bool)
    requires
        !has_char(token, ';'),
        token.len() == 0 || !is_white_space(token.last()),
    ensures
        find_cookie(stored_pair(session_cookie_text(token, secure)), COOKIE_NAME@) == Some(token),
        find_cookie(session_cookie_text(token, secure), COOKIE_NAME@) == Some(token),
{
    reveal_strlit("aio_session");
    reveal_strlit("=");
    reveal_strlit("; Path=/; HttpOnly; SameSite=Lax; Max-Age=604800");
    reveal_strlit("; Secure");
    let name = COOKIE_NAME@;
    assert(!has_char(name, ';'));
    assert(!has_char(name, '='));
    let attrs = "; Path=/; HttpOnly; SameSite=Lax; Max-Age=604800"@ + secure_attribute(secure);
    assert(attrs[0] == ';');
    let full = session_cookie_text(token, secure);
    assert(full =~= name + "="@ + token + attrs);
    lemma_find_pair(name, token, attrs);
    let pair = name + "="@ + token;
    assert forall|k: int| 0 <= k < pair.len() implies full[k] != ';' by {
        if k < name.len() {
            assert(full[k] == name[k]);
        } else if k > name.len() {
            assert(full[k] == token[k - name.len() - 1]);
        }
    }
    assert(full[pair.len() as int] == ';');
    lemma_find_char_at(full, ';', pair.len() as int);
    assert(stored_pair(full) =~= pair);
    assert(pair + Seq::<char>::empty() =~= pair);
    lemma_find_pair(name, token, Seq::empty());
}

/// Signing out empties the session cookie: a client that stores the pair of the expiring
/// `Set-Cookie` value and sends it back presents an empty token.
pub proof fn expired_cookie_clears_token(secure: bool)
    ensures
        find_cookie(stored_pair(expired_cookie_text(secure)), COOKIE_NAME@) == Some(
            Seq::<char>::empty(),
        ),
{
    reveal_strlit("aio_session");
    reveal_strlit("=");
    reveal_strlit("=; Path=/; HttpOnly; SameSite=Lax; Max-Age=0");
    reveal_strlit("; Secure");
    let name = COOKIE_NAME@;
    assert(!has_char(name, ';'));
    assert(!has_char(name, '='));
    let full = expired_cookie_text(secure);
    let pair = name + "="@;
    assert forall|k: int| 0 <= k < pair.len() implies full[k] != ';' by {
        if k < name.len() {
            assert(full[k] == name[k]);
        }
    }
    assert(full[pair.len() as int] == ';');
    lemma_find_char_at(full, ';', pair.len() as int);
    assert(stored_pair(full) =~= name + "="@ + Seq::<char>::empty() + Seq::<char>::empty());
    lemma_find_pair(name, Seq::empty(), Seq::empty());
}

/// `pieces`, each followed by `;`, then `rest`: a `Cookie` header whose last pieces are in
/// `rest`.
pub open spec fn after_pieces(pieces: Seq<Seq<char>>, rest: Seq<char>) -> Seq<char>
    decreases pieces.len(),
{
    if pieces.len() == 0 {
        rest
    } else {
        pieces[0] + ";"@ + after_pieces(pieces.drop_first(), rest)
    }
}

/// A piece of a `Cookie` header that is not the cookie `name`: it holds no `;`, and
/// trimmed, it does not start with `name=`.
pub open spec fn other_cookie(piece: Seq<char>, name: Seq<char>) -> bool {
    !has_char(piece, ';') && !(name + "="@).is_prefix_of(trim(piece))
}

proof fn lemma_trim_start_skips(ws: Seq<char>, x: Seq<char>)
    requires
        forall|i: int| 0 <= i < ws.len() ==> is_white_space(#[trigger] ws[i]),
    ensures
        trim_start(ws + x) == trim_start(x),
    decreases ws.len(),
{
    if ws.len() > 0 {
        assert((ws + x)[0] == ws[0]);
        assert((ws + x).drop_first() =~= ws.drop_first() + x);
        lemma_trim_start_skips(ws.drop_first(), x);
    } else {
        assert(ws + x =~= x);
    }
}

/// A piece that is another cookie is passed over: the cookie `name` is looked for in what
/// follows it.
pub proof fn other_cookie_is_skipped(piece: Seq<char>, rest: Seq<char>, name: Seq<char>)
    requires
        !has_char(name, '='),
        other_cookie(piece, name),
    ensures
        find_cookie(piece + ";"@ + rest, name) == find_cookie(rest, name),
{
    reveal_strlit(";");
    reveal_strlit("=");
    let s = piece + ";"@ + rest;
    assert forall|k: int| 0 <= k < piece.len() implies s[k] != ';' by {
        assert(s[k] == piece[k]);
    }
    assert(s[piece.len() as int] == ';');
    lemma_find_char_at(s, ';', piece.len() as int);
    assert(s.take(piece.len() as int) =~= piece);
    let t = trim(piece);
    let k = find_char(t, '=');
    lemma_find_char(t, '=');
    if k < t.len() && t.take(k) == name {
        assert forall|i: int| 0 <= i < (name + "="@).len() implies (name + "="@)[i] == t[i] by {
            if i < name.len() {
                assert(t.take(k)[i] == t[i]);
            }
        }
        assert((name + "="@).is_prefix_of(t));
        assert(false);
    }
    assert(s.skip(piece.len() as int + 1) =~= rest);
}

/// Any number of other cookies before the cookie `name` are passed over.
pub proof fn other_cookies_are_skipped(pieces: Seq<Seq<char>>, rest: Seq<char>, name: Seq<char>)
    requires
        !has_char(name, '='),
        forall|i: int| 0 <= i < pieces.len() ==> other_cookie(#[trigger] pieces[i], name),
    ensures
        find_cookie(after_pieces(pieces, rest), name) == find_cookie(rest, name),
    decreases pieces.len(),
{
    if pieces.len() > 0 {
        assert(other_cookie(pieces[0], name));
        assert forall|i: int| 0 <= i < pieces.drop_first().len() implies other_cookie(
            #[trigger] pieces.drop_first()[i],
            name,
        ) by {
            assert(pieces.drop_first()[i] == pieces[i + 1]);
        }
        other_cookies_are_skipped(pieces.drop_first(), rest, name);
        other_cookie_is_skipped(pieces[0], after_pieces(pieces.drop_first(), rest), name);
    }
}

/// After any other cookies, and after white space, a pair `name=token` followed by nothing
/// or by `;` gives `token`.
pub proof fn cookie_found_after_other_cookies(
    pieces: Seq<Seq<char>>,
    ws: Seq<char>,
    name: Seq<char>,
    token: Seq<char>,
    tail: Seq<char>,
)
    requires
        name.len() > 0,
        !is_white_space(name[0]),
        !has_char(name, ';'),
        !has_char(name, '='),
        forall|i: int| 0 <= i < pieces.len() ==> other_cookie(#[trigger] pieces[i], name),
        forall|i: int| 0 <= i < ws.len() ==> is_white_space(#[trigger] ws[i]),
        !has_char(token, ';'),
        token.len() == 0 || !is_white_space(token.last()),
        tail.len() == 0 || tail[0] == ';',
    ensures
        find_cookie(after_pieces(pieces, ws + name + "="@ + token + tail), name) == Some(token),
{
    reveal_strlit("=");
    let rest = ws + name + "="@ + token + tail;
    other_cookies_are_skipped(pieces, rest, name);
    let pair = name + "="@ + token;
    let e = (ws.len() + pair.len()) as int;
    assert forall|k: int| 0 <= k < e implies rest[k] != ';' by {
        if k < ws.len() {
            assert(rest[k] == ws[k]);
        } else if k < ws.len() + name.len() {
            assert(rest[k] == name[k - ws.len()]);
        } else if k > ws.len() + name.len() {
            assert(rest[k] == token[k - ws.len() - name.len() - 1]);
        }
    }
    lemma_find_char_at(rest, ';', e);
    assert(rest.take(e) =~= ws + pair);
    lemma_trim_start_skips(ws, pair);
    assert(pair[0] == name[0]);
    if token.len() == 0 {
        assert(pair.last() == '=');
    } else {
        assert(pair.last() == token.last());
    }
    lemma_trim_unchanged(pair);
    assert(trim(ws + pair) == pair);
    assert forall|k: int| 0 <= k < name.len() implies pair[k] != '=' by {
        assert(pair[k] == name[k]);
    }
    lemma_find_char_at(pair, '=', name.len() as int);
    assert(pair.take(name.len() as int) =~= name);
    assert(pair.skip(name.len() as int + 1) =~= token);
}

/// The session cookie is found after any number of other cookies: a header
/// `p1; ...; pn; aio_session=token` gives `token`.
pub proof fn session_cookie_after_other_cookies(pieces: Seq<Seq<char>>, token: Seq<char>)
    requires
        forall|i: int| 0 <= i < pieces.len() ==> other_cookie(#[trigger] pieces[i], COOKIE_NAME@),
        !has_char(token, ';'),
        token.len() == 0 || !is_white_space(token.last()),
    ensures
        find_cookie(after_pieces(pieces, " aio_session="@ + token), COOKIE_NAME@) == Some(token),
{
    reveal_strlit("aio_session");
    reveal_strlit("=");
    reveal_strlit(" ");
    reveal_strlit(" aio_session=");
    let name = COOKIE_NAME@;
    assert(!has_char(name, ';'));
    assert(!has_char(name, '='));
    let ws = " "@;
    assert(is_white_space(ws[0]));
    assert(ws + name + "="@ + token + Seq::<char>::empty() =~= " aio_session="@ + token);
    cookie_found_after_other_cookies(pieces, ws, name, token, Seq::empty());
}

/// `part` stands somewhere in `s`.
pub open spec fn contains_text(s: Seq<char>, part: Seq<char>) -> bool {
    exists|k: int| 0 <= k && k + part.len() <= s.len() && #[trigger] s.subrange(k, k + part.len()) == part
}

/// `s` ends with `part`.
pub open spec fn ends_with(s: Seq<char>, part: Seq<char>) -> bool {
    part.len() <= s.len() && s.subrange(s.len() - part.len(), s.len() as int) == part
}

/// The session cookie starts with `aio_session=` and the token; it is kept from scripts
/// (`HttpOnly`), sent only to the same site on top-level navigation (`SameSite=Lax`), for
/// the whole site (`Path=/`), for seven days (`Max-Age=604800`); and it is marked `Secure`
/// exactly when the service runs behind HTTPS.
pub proof fn session_cookie_attributes(token: Seq<char>, secure: bool)
    ensures
        (COOKIE_NAME@ + "="@ + token).is_prefix_of(session_cookie_text(token, secure)),
        contains_text(session_cookie_text(token, secure), "; HttpOnly"@),
        contains_text(session_cookie_text(token, secure), "; SameSite=Lax"@),
        contains_text(session_cookie_text(token, secure), "; Path=/"@),
        contains_text(session_cookie_text(token, secure), "; Max-Age=604800"@),
        secure <==> ends_with(session_cookie_text(token, secure), "; Secure"@),
{
    reveal_strlit("aio_session");
    reveal_strlit("=");
    reveal_strlit("; Path=/; HttpOnly; SameSite=Lax; Max-Age=604800");
    reveal_strlit("; Secure");
    reveal_strlit("; HttpOnly");
    reveal_strlit("; SameSite=Lax");
    reveal_strlit("; Path=/");
    reveal_strlit("; Max-Age=604800");
    let full = session_cookie_text(token, secure);
    let head = COOKIE_NAME@ + "="@ + token;
    let p = head.len() as int;
    assert(head.is_prefix_of(full)) by {
        assert forall|i: int| 0 <= i < head.len() implies head[i] == full[i] by {}
    }
    let k0 = p;
    let k1 = p + 8;
    let k2 = p + 18;
    let k3 = p + 32;
    assert(full.subrange(k0, k0 + "; Path=/"@.len()) =~= "; Path=/"@);
    assert(full.subrange(k1, k1 + "; HttpOnly"@.len()) =~= "; HttpOnly"@);
    assert(full.subrange(k2, k2 + "; SameSite=Lax"@.len()) =~= "; SameSite=Lax"@);
    assert(full.subrange(k3, k3 + "; Max-Age=604800"@.len()) =~= "; Max-Age=604800"@);
    if secure {
        assert(full.subrange(full.len() - 8, full.len() as int) =~= "; Secure"@);
    } else {
        assert(full.len() == p + 48);
        assert(full[full.len() - 1] == '0');
        if ends_with(full, "; Secure"@) {
            assert(full.subrange(full.len() - 8, full.len() as int)[7] == full[full.len() - 1]);
            assert(false);
        }
    }
}

} // verus!
