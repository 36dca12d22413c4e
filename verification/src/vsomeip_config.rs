//! The applications that a vsomeip configuration declares: under its `"applications"` key, each
//! object (opened by `{`) that has a `"name"` and an `"id"`, the id written in hexadecimal with an
//! optional `0x` prefix.
use vstd::prelude::*;
use vstd::string::*;
use crate::ids::ClientId;
use crate::status::{UCode, UStatus};

verus! {

/// Whether `pat` occurs in `t` at position `i`.
pub open spec fn occurs_at(t: Seq<char>, pat: Seq<char>, i: int) -> bool {
    0 <= i && i + pat.len() <= t.len() && t.subrange(i, i + pat.len()) == pat
}

/// The first position from `from` on where a non-empty `pat` occurs in `t` and ends by `hi`.
pub open spec fn find_in(t: Seq<char>, pat: Seq<char>, from: int, hi: int) -> Option<int>
    decreases hi - from,
{
    if pat.len() == 0 || from < 0 || hi > t.len() || from + pat.len() > hi {
        None
    } else if occurs_at(t, pat, from) {
        Some(from)
    } else {
        find_in(t, pat, from + 1, hi)
    }
}

/// The key under which the applications stand.
pub open spec fn applications_key() -> Seq<char> {
    "\"applications\""@
}

/// The key of an application's name.
pub open spec fn name_key() -> Seq<char> {
    "\"name\""@
}

/// The key of an application's id.
pub open spec fn id_key() -> Seq<char> {
    "\"id\""@
}

/// A double quote.
pub open spec fn quote() -> Seq<char> {
    "\""@
}

/// An opening brace.
pub open spec fn open_brace() -> Seq<char> {
    "{"@
}

/// The hexadecimal prefix.
pub open spec fn hex_prefix() -> Seq<char> {
    "0x"@
}

/// Where the value of a field lies in the window `lo..hi` of `t`: between the first two double
/// quotes after the first occurrence of the field's quoted key.
pub open spec fn field_bounds(t: Seq<char>, key: Seq<char>, lo: int, hi: int) -> Option<(int, int)> {
    match find_in(t, key, lo, hi) {
        None => None,
        Some(k) => match find_in(t, quote(), k + key.len(), hi) {
            None => None,
            Some(q1) => match find_in(t, quote(), q1 + 1, hi) {
                None => None,
                Some(q2) => Some((q1 + 1, q2)),
            },
        },
    }
}

/// The value of a hexadecimal digit.
pub open spec fn hex_digit(c: char) -> Option<nat> {
    if '0' <= c && c <= '9' {
        Some((c as nat - '0' as nat) as nat)
    } else if 'a' <= c && c <= 'f' {
        Some((c as nat - 'a' as nat + 10) as nat)
    } else if 'A' <= c && c <= 'F' {
        Some((c as nat - 'A' as nat + 10) as nat)
    } else {
        None
    }
}

/// The number that a sequence of hexadecimal digits writes, or nothing where one is no digit.
pub open spec fn hex_number(digits: Seq<char>) -> Option<nat>
    decreases digits.len(),
{
    if digits.len() == 0 {
        Some(0)
    } else {
        match (hex_number(digits.drop_last()), hex_digit(digits.last())) {
            (Some(high), Some(low)) => Some(high * 16 + low),
            _ => None,
        }
    }
}

/// The client id that an id text writes: hexadecimal digits, at least one, after an optional
/// `0x`, with a value that fits in 16 bits.
pub open spec fn client_id_of_text(s: Seq<char>) -> Option<ClientId> {
    let digits = if occurs_at(s, hex_prefix(), 0) { s.skip(2) } else { s };
    match hex_number(digits) {
        Some(v) => if digits.len() > 0 && v < 0x10000 { Some(v as ClientId) } else { None },
        None => None,
    }
}

/// What the object that opens at position `b` declares, up to the next opening brace or the end:
/// nothing where it lacks a name or an id, the application otherwise, and a failure where its id
/// is no client id.
pub open spec fn entry_at(t: Seq<char>, b: int) -> Result<Option<(ClientId, Seq<char>)>, ()> {
    let end = match find_in(t, open_brace(), b + 1, t.len() as int) {
        Some(e) => e,
        None => t.len() as int,
    };
    match (field_bounds(t, name_key(), b + 1, end), field_bounds(t, id_key(), b + 1, end)) {
        (Some(n), Some(i)) => match client_id_of_text(t.subrange(i.0, i.1)) {
            Some(id) => Ok(Some((id, t.subrange(n.0, n.1)))),
            None => Err(()),
        },
        _ => Ok(None),
    }
}

/// The applications of the objects that open at or after position `pos`, in order.
pub open spec fn applications_from(t: Seq<char>, pos: int) -> Option<Seq<(ClientId, Seq<char>)>>
    decreases t.len() - pos,
{
    match find_in(t, open_brace(), pos, t.len() as int) {
        None => Some(Seq::empty()),
        Some(b) => if b < pos || b >= t.len() {
            None
        } else {
            match entry_at(t, b) {
                Err(()) => None,
                Ok(entry) => match applications_from(t, b + 1) {
                    None => None,
                    Some(rest) => match entry {
                        Some(app) => Some(seq![app] + rest),
                        None => Some(rest),
                    },
                },
            }
        }
    }
}

/// The applications that a configuration text declares, in order: none without an
/// `"applications"` key, and nothing where an id is no client id.
pub open spec fn config_applications(t: Seq<char>) -> Option<Seq<(ClientId, Seq<char>)>> {
    match find_in(t, applications_key(), 0, t.len() as int) {
        None => Some(Seq::empty()),
        Some(k) => applications_from(t, k + applications_key().len()),
    }
}

proof fn lemma_find_in_bounds(t: Seq<char>, pat: Seq<char>, from: int, hi: int)
    ensures
        find_in(t, pat, from, hi) matches Some(p) ==> from <= p && p + pat.len() <= hi && occurs_at(t, pat, p),
    decreases hi - from,
{
    if !(pat.len() == 0 || from < 0 || hi > t.len() || from + pat.len() > hi) && !occurs_at(t, pat, from) {
        lemma_find_in_bounds(t, pat, from + 1, hi);
    }
}

fn chars_of(text: &str) -> (r: Vec<char>)
    ensures
        r@ == text@,
{
    let n = text.unicode_len();
    let mut r: Vec<char> = Vec::new();
    let mut i: usize = 0;
    while i < n
        invariant
            n == text@.len(),
            i <= n,
            r@ == text@.take(i as int),
        decreases n - i,
    {
        let c = text.get_char(i);
        r.push(c);
        i = i + 1;
        assert(r@ =~= text@.take(i as int));
    }
    assert(r@ =~= text@);
    r
}

fn occurs_at_exec(t: &Vec<char>, pat: &Vec<char>, i: usize) -> (r: bool)
    requires
        i + pat@.len() <= t@.len(),
    ensures
        r == occurs_at(t@, pat@, i as int),
{
    let mut j: usize = 0;
    while j < pat.len()
        invariant
            i + pat@.len() <= t@.len(),
            t@.len() == t.len(),
            j <= pat@.len(),
            forall|k: int| 0 <= k < j ==> t@[i + k] == pat@[k],
        decreases pat@.len() - j,
    {
        if t[i + j] != pat[j] {
            assert(t@.subrange(i as int, i + pat@.len())[j as int] != pat@[j as int]);
            return false;
        }
        j = j + 1;
    }
    assert(t@.subrange(i as int, i + pat@.len()) =~= pat@);
    true
}

fn find_in_exec(t: &Vec<char>, pat: &Vec<char>, from: usize, hi: usize) -> (r: Option<usize>)
    requires
        hi <= t@.len(),
    ensures
        match r {
            Some(p) => find_in(t@, pat@, from as int, hi as int) == Some(p as int),
            None => find_in(t@, pat@, from as int, hi as int) is None,
        },
{
    if pat.len() == 0 {
        return None;
    }
    let mut p = from;
    while p <= hi && pat.len() <= hi - p
        invariant
            hi <= t@.len(),
            pat@.len() > 0,
            from <= p,
            find_in(t@, pat@, from as int, hi as int) == find_in(t@, pat@, p as int, hi as int),
        decreases hi - p,
    {
        if occurs_at_exec(t, pat, p) {
            return Some(p);
        }
        p = p + 1;
    }
    None
}

fn value_between(text: &str, from: usize, to: usize) -> (r: String)
    requires
        from <= to <= text@.len(),
    ensures
        r@ == text@.subrange(from as int, to as int),
{
    String::from_str(text.substring_char(from, to))
}

fn field_bounds_exec(t: &Vec<char>, key: &Vec<char>, quote_chars: &Vec<char>, lo: usize, hi: usize)
    -> (r: Option<(usize, usize)>)
    requires
        hi <= t@.len(),
        quote_chars@ == quote(),
    ensures
        match r {
            Some(b) => field_bounds(t@, key@, lo as int, hi as int) == Some((b.0 as int, b.1 as int))
                && b.0 <= b.1 <= hi,
            None => field_bounds(t@, key@, lo as int, hi as int) is None,
        },
{
    let k = match find_in_exec(t, key, lo, hi) {
        Some(k) => k,
        None => {
            return None;
        },
    };
    proof {
        lemma_find_in_bounds(t@, key@, lo as int, hi as int);
    }
    let q1 = match find_in_exec(t, quote_chars, k + key.len(), hi) {
        Some(q) => q,
        None => {
            return None;
        },
    };
    proof {
        lemma_find_in_bounds(t@, quote(), k + key@.len(), hi as int);
    }
    let q2 = match find_in_exec(t, quote_chars, q1 + 1, hi) {
        Some(q) => q,
        None => {
            return None;
        },
    };
    proof {
        lemma_find_in_bounds(t@, quote(), q1 + 1, hi as int);
    }
    Some((q1 + 1, q2))
}

proof fn lemma_hex_number_of_prefix(s: Seq<char>, n: int)
    requires
        0 <= n <= s.len(),
    ensures
        hex_number(s.take(n)) is None ==> hex_number(s) is None,
        hex_number(s.take(n)) is Some && hex_number(s) is Some ==> hex_number(s.take(n))->0 <= hex_number(s)->0,
    decreases s.len(),
{
    if n == s.len() {
        assert(s.take(n) =~= s);
    } else {
        let d = s.drop_last();
        assert(d.take(n) =~= s.take(n));
        lemma_hex_number_of_prefix(d, n);
    }
}

fn hex_digit_exec(c: char) -> (r: Option<u32>)
    ensures
        match r {
            Some(v) => hex_digit(c) == Some(v as nat) && v < 16,
            None => hex_digit(c) is None,
        },
{
    if '0' <= c && c <= '9' {
        Some((c as u32) - ('0' as u32))
    } else if 'a' <= c && c <= 'f' {
        Some((c as u32) - ('a' as u32) + 10)
    } else if 'A' <= c && c <= 'F' {
        Some((c as u32) - ('A' as u32) + 10)
    } else {
        None
    }
}

fn client_id_of_text_exec(t: &Vec<char>, lo: usize, hi: usize) -> (r: Option<ClientId>)
    requires
        lo <= hi <= t@.len(),
    ensures
        r == client_id_of_text(t@.subrange(lo as int, hi as int)),
{
    let ghost s = t@.subrange(lo as int, hi as int);
    proof {
        reveal_strlit("0x");
    }
    let has_prefix = hi - lo >= 2 && t[lo] == '0' && t[lo + 1] == 'x';
    proof {
        if has_prefix {
            assert(s.subrange(0, 2) =~= hex_prefix());
        } else if occurs_at(s, hex_prefix(), 0) {
            assert(s.subrange(0, 2)[0] == '0' && s.subrange(0, 2)[1] == 'x');
        }
    }
    let start = if has_prefix { lo + 2 } else { lo };
    let ghost digits = t@.subrange(start as int, hi as int);
    assert(digits =~= if occurs_at(s, hex_prefix(), 0) { s.skip(2) } else { s });
    if start == hi {
        assert(digits.len() == 0);
        return None;
    }
    let mut acc: u32 = 0;
    let mut k: usize = start;
    while k < hi
        invariant
            lo <= start <= k <= hi <= t@.len(),
            digits == t@.subrange(start as int, hi as int),
            s == t@.subrange(lo as int, hi as int),
            digits == (if occurs_at(s, hex_prefix(), 0) { s.skip(2) } else { s }),
            digits.len() > 0,
            hex_number(digits.take(k - start)) == Some(acc as nat),
            acc < 0x10000,
        decreases hi - k,
    {
        let ghost n = (k - start) as int;
        assert(digits.take(n + 1).drop_last() =~= digits.take(n));
        assert(digits.take(n + 1).last() == t@[k as int]);
        let d = match hex_digit_exec(t[k]) {
            Some(d) => d,
            None => {
                proof {
                    assert(hex_number(digits.take(n + 1)) is None);
                    lemma_hex_number_of_prefix(digits, n + 1);
                    assert(hex_number(digits) is None);
                }
                return None;
            },
        };
        let next = acc * 16 + d;
        if next >= 0x10000 {
            proof {
                assert(hex_number(digits.take(n + 1)) == Some(next as nat));
                lemma_hex_number_of_prefix(digits, n + 1);
                assert(hex_number(digits) is None || hex_number(digits)->0 >= 0x10000);
            }
            return None;
        }
        acc = next;
        k = k + 1;
    }
    assert(digits.take(digits.len() as int) =~= digits);
    Some(acc as u16)
}

/// The applications of a list, each with its name as text.
pub open spec fn applications_view(v: Seq<(ClientId, String)>) -> Seq<(ClientId, Seq<char>)> {
    v.map_values(|a: (ClientId, String)| (a.0, a.1@))
}

/// Reads the applications that a vsomeip configuration text declares, in the order in which they
/// stand: under the first `"applications"` key, every object with a `"name"` and an `"id"`
/// field. Objects that lack either are passed over; a configuration without the key declares
/// none. An id that is no hexadecimal 16-bit number fails with invalid-argument.
pub fn applications_of_config(text: &str) -> (r: Result<Vec<(ClientId, String)>, UStatus>)
    ensures
        match config_applications(text@) {
            Some(apps) => r matches Ok(v) && applications_view(v@) == apps,
            None => r matches Err(e) && e.code == UCode::INVALID_ARGUMENT,
        },
{
    let t = chars_of(text);
    let apps_key = chars_of("\"applications\"");
    let name = chars_of("\"name\"");
    let id = chars_of("\"id\"");
    let quote_chars = chars_of("\"");
    let brace = chars_of("{");
    let n = t.len();
    let k = match find_in_exec(&t, &apps_key, 0, n) {
        Some(k) => k,
        None => {
            let v: Vec<(ClientId, String)> = Vec::new();
            assert(applications_view(v@) =~= Seq::<(ClientId, Seq<char>)>::empty());
            return Ok(v);
        },
    };
    proof {
        lemma_find_in_bounds(t@, applications_key(), 0, n as int);
    }
    let mut pos = k + apps_key.len();
    let mut v: Vec<(ClientId, String)> = Vec::new();
    assert(applications_view(v@) =~= Seq::<(ClientId, Seq<char>)>::empty());
    loop
        invariant
            t@ == text@,
            n == t@.len(),
            pos <= n,
            apps_key@ == applications_key(),
            name@ == name_key(),
            id@ == id_key(),
            quote_chars@ == quote(),
            brace@ == open_brace(),
            config_applications(text@) == match applications_from(t@, pos as int) {
                Some(rest) => Some(applications_view(v@) + rest),
                None => None,
            },
        decreases n - pos,
    {
        let b = match find_in_exec(&t, &brace, pos, n) {
            Some(b) => b,
            None => {
                assert(applications_view(v@) + Seq::<(ClientId, Seq<char>)>::empty() =~= applications_view(v@));
                return Ok(v);
            },
        };
        proof {
            lemma_find_in_bounds(t@, open_brace(), pos as int, n as int);
        }
        let end = match find_in_exec(&t, &brace, b + 1, n) {
            Some(e) => e,
            None => n,
        };
        proof {
            lemma_find_in_bounds(t@, open_brace(), b + 1, n as int);
        }
        let name_bounds = field_bounds_exec(&t, &name, &quote_chars, b + 1, end);
        let id_bounds = field_bounds_exec(&t, &id, &quote_chars, b + 1, end);
        match (name_bounds, id_bounds) {
            (Some(nb), Some(ib)) => match client_id_of_text_exec(&t, ib.0, ib.1) {
                Some(client_id) => {
                    let app_name = value_between(text, nb.0, nb.1);
                    let ghost before = v@;
                    v.push((client_id, app_name));
                    proof {
                        let app = (client_id, t@.subrange(nb.0 as int, nb.1 as int));
                        assert(applications_view(v@) =~= applications_view(before).push(app));
                        match applications_from(t@, b + 1) {
                            Some(rest) => {
                                assert(applications_view(before) + (seq![app] + rest)
                                    =~= applications_view(v@) + rest);
                            },
                            None => {},
                        }
                    }
                },
                None => {
                    return Err(UStatus::fail_with_code(UCode::INVALID_ARGUMENT, "Invalid application id in vsomeip configuration"));
                },
            },
            _ => {},
        }
        pos = b + 1;
    }
}

/// The applications that a point-to-point listener is registered on: those of the
/// configuration text where there is one, and none without a configuration.
pub fn point_to_point_applications(config_text: Option<&str>) -> (r: Result<Vec<(ClientId, String)>, UStatus>)
    ensures
        match config_text {
            None => r matches Ok(v) && v@.len() == 0,
            Some(text) => match config_applications(text@) {
                Some(apps) => r matches Ok(v) && applications_view(v@) == apps,
                None => r matches Err(e) && e.code == UCode::INVALID_ARGUMENT,
            },
        },
{
    match config_text {
        None => Ok(Vec::new()),
        Some(text) => applications_of_config(text),
    }
}

} // verus!
