//! Reading the system routing table: the routes that go through a utun
//! tunnel device and must be deleted once the tunnel is down.

use vstd::prelude::*;
use vstd::string::*;
use crate::text::{chars_of, head_before, starts_with_str};

verus! {

broadcast use vstd::string::group_string_axioms;

/// Unicode white space (the `White_Space` property).
pub open spec fn is_ws(c: char) -> bool {
    ||| ('\u{9}' <= c && c <= '\u{d}')
    ||| c == ' '
    ||| c == '\u{85}'
    ||| c == '\u{a0}'
    ||| c == '\u{1680}'
    ||| ('\u{2000}' <= c && c <= '\u{200a}')
    ||| c == '\u{2028}'
    ||| c == '\u{2029}'
    ||| c == '\u{202f}'
    ||| c == '\u{205f}'
    ||| c == '\u{3000}'
}

/// Whether a character is Unicode white space.
pub fn is_whitespace(c: char) -> (r: bool)
    ensures
        r == is_ws(c),
{
    ('\u{9}' <= c && c <= '\u{d}')
        || c == ' '
        || c == '\u{85}'
        || c == '\u{a0}'
        || c == '\u{1680}'
        || ('\u{2000}' <= c && c <= '\u{200a}')
        || c == '\u{2028}'
        || c == '\u{2029}'
        || c == '\u{202f}'
        || c == '\u{205f}'
        || c == '\u{3000}'
}

/// A line without the carriage return of a `\r\n` ending.
pub open spec fn strip_cr(line: Seq<char>) -> Seq<char> {
    if line.len() > 0 && line.last() == '\r' { line.drop_last() } else { line }
}

/// The lines of a text: split at `\n`, with the `\r` of a `\r\n` ending
/// removed; a final line ending does not start an empty line.
pub open spec fn lines(s: Seq<char>) -> Seq<Seq<char>>
    decreases s.len(),
{
    if s.len() == 0 {
        Seq::empty()
    } else {
        let h = head_before(s, '\n');
        if h.len() >= s.len() {
            seq![s]
        } else {
            seq![strip_cr(h)] + lines(s.skip((h.len() + 1) as int))
        }
    }
}

/// `s` without its leading white space.
pub open spec fn trim_start(s: Seq<char>) -> Seq<char>
    decreases s.len(),
{
    if s.len() > 0 && is_ws(s[0]) { trim_start(s.drop_first()) } else { s }
}

/// The leading run of non-white-space characters of `s`.
pub open spec fn leading_word(s: Seq<char>) -> Seq<char>
    decreases s.len(),
{
    if s.len() == 0 || is_ws(s[0]) {
        Seq::empty()
    } else {
        seq![s[0]] + leading_word(s.drop_first())
    }
}

/// `s` without its trailing white space.
pub open spec fn trim_end(s: Seq<char>) -> Seq<char>
    decreases s.len(),
{
    if s.len() > 0 && is_ws(s.last()) { trim_end(s.drop_last()) } else { s }
}

/// The trailing run of non-white-space characters of `s`.
pub open spec fn trailing_word(s: Seq<char>) -> Seq<char>
    decreases s.len(),
{
    if s.len() == 0 || is_ws(s.last()) {
        Seq::empty()
    } else {
        trailing_word(s.drop_last()).push(s.last())
    }
}

/// The first white-space separated field of a line (empty when it has none).
pub open spec fn first_field(line: Seq<char>) -> Seq<char> {
    leading_word(trim_start(line))
}

/// The last white-space separated field of a line (empty when it has none).
pub open spec fn last_field(line: Seq<char>) -> Seq<char> {
    trailing_word(trim_end(line))
}

/// A routing table line whose interface (last field) is a utun device.
pub open spec fn is_utun_line(line: Seq<char>) -> bool {
    let iface = last_field(line);
    iface.len() >= 4 && iface.take(4) == "utun"@
}

/// The (destination, interface) pairs of the routes to delete: for each line
/// whose interface is a utun device, its first field and its interface.
pub open spec fn utun_routes_of(ls: Seq<Seq<char>>) -> Seq<(Seq<char>, Seq<char>)>
    decreases ls.len(),
{
    if ls.len() == 0 {
        Seq::empty()
    } else {
        let rest = utun_routes_of(ls.drop_first());
        if is_utun_line(ls[0]) {
            seq![(first_field(ls[0]), last_field(ls[0]))] + rest
        } else {
            rest
        }
    }
}

/// A route to delete.
pub struct RouteToDelete {
    /// The route's destination (the line's first field).
    pub destination: String,
    /// The utun interface it goes through.
    pub interface: String,
}

/// The plain values of a list of routes.
pub open spec fn routes_view(v: Seq<RouteToDelete>) -> Seq<(Seq<char>, Seq<char>)> {
    v.map_values(|r: RouteToDelete| (r.destination@, r.interface@))
}

proof fn lemma_trim_start(s: Seq<char>, a: int)
    requires
        0 <= a <= s.len(),
        forall|j: int| 0 <= j < a ==> is_ws(s[j]),
        a == s.len() || !is_ws(s[a]),
    ensures
        trim_start(s) == s.skip(a),
    decreases a,
{
    if a == 0 {
        assert(s.skip(0) =~= s);
    } else {
        let t = s.drop_first();
        assert forall|j: int| 0 <= j < a - 1 implies is_ws(t[j]) by {
            assert(t[j] == s[j + 1]);
        }
        lemma_trim_start(t, a - 1);
        assert(t.skip(a - 1) =~= s.skip(a));
    }
}

proof fn lemma_leading_word(s: Seq<char>, m: int)
    requires
        0 <= m <= s.len(),
        forall|j: int| 0 <= j < m ==> !is_ws(s[j]),
        m == s.len() || is_ws(s[m]),
    ensures
        leading_word(s) == s.take(m),
    decreases m,
{
    if m == 0 {
        assert(s.take(0) =~= Seq::<char>::empty());
    } else {
        let t = s.drop_first();
        assert forall|j: int| 0 <= j < m - 1 implies !is_ws(t[j]) by {
            assert(t[j] == s[j + 1]);
        }
        lemma_leading_word(t, m - 1);
        assert(s.take(m) =~= seq![s[0]] + t.take(m - 1));
    }
}

proof fn lemma_trim_end(s: Seq<char>, e: int)
    requires
        0 <= e <= s.len(),
        forall|j: int| e <= j < s.len() ==> is_ws(s[j]),
        e == 0 || !is_ws(s[e - 1]),
    ensures
        trim_end(s) == s.take(e),
    decreases s.len() - e,
{
    if e == s.len() {
        assert(s.take(e) =~= s);
    } else {
        let t = s.drop_last();
        lemma_trim_end(t, e);
        assert(t.take(e) =~= s.take(e));
    }
}

proof fn lemma_trailing_word(s: Seq<char>, c: int)
    requires
        0 <= c <= s.len(),
        forall|j: int| c <= j < s.len() ==> !is_ws(s[j]),
        c == 0 || is_ws(s[c - 1]),
    ensures
        trailing_word(s) == s.subrange(c, s.len() as int),
    decreases s.len() - c,
{
    if c == s.len() {
        assert(s.subrange(c, c) =~= Seq::<char>::empty());
    } else {
        let t = s.drop_last();
        lemma_trailing_word(t, c);
        assert(s.subrange(c, s.len() as int) =~= t.subrange(c, t.len() as int).push(s.last()));
    }
}

/// Positions `(a, b)` of the first field of `line` within it.
fn first_field_range(line: &Vec<char>) -> (r: (usize, usize))
    ensures
        r.0 <= r.1 <= line@.len(),
        line@.subrange(r.0 as int, r.1 as int) == first_field(line@),
{
    let n = line.len();
    let mut a: usize = 0;
    while a < n && is_whitespace(line[a])
        invariant
            n == line@.len(),
            a <= n,
            forall|j: int| 0 <= j < a ==> is_ws(line@[j]),
        decreases n - a,
    {
        a = a + 1;
    }
    let mut b: usize = a;
    while b < n && !is_whitespace(line[b])
        invariant
            n == line@.len(),
            a <= b <= n,
            forall|j: int| a <= j < b ==> !is_ws(line@[j]),
        decreases n - b,
    {
        b = b + 1;
    }
    proof {
        lemma_trim_start(line@, a as int);
        let t = line@.skip(a as int);
        assert forall|j: int| 0 <= j < b - a implies !is_ws(t[j]) by {
            assert(t[j] == line@[a + j]);
        }
        lemma_leading_word(t, b - a);
        assert(t.take(b - a) =~= line@.subrange(a as int, b as int));
    }
    (a, b)
}

/// Positions `(c, e)` of the last field of `line` within it.
fn last_field_range(line: &Vec<char>) -> (r: (usize, usize))
    ensures
        r.0 <= r.1 <= line@.len(),
        line@.subrange(r.0 as int, r.1 as int) == last_field(line@),
{
    let n = line.len();
    let mut e: usize = n;
    while e > 0 && is_whitespace(line[e - 1])
        invariant
            n == line@.len(),
            e <= n,
            forall|j: int| e <= j < n ==> is_ws(line@[j]),
        decreases e,
    {
        e = e - 1;
    }
    let mut c: usize = e;
    while c > 0 && !is_whitespace(line[c - 1])
        invariant
            n == line@.len(),
            c <= e <= n,
            forall|j: int| c <= j < e ==> !is_ws(line@[j]),
        decreases c,
    {
        c = c - 1;
    }
    proof {
        lemma_trim_end(line@, e as int);
        let t = line@.take(e as int);
        assert forall|j: int| c <= j < t.len() implies !is_ws(t[j]) by {}
        lemma_trailing_word(t, c as int);
        assert(t.subrange(c as int, e as int) =~= line@.subrange(c as int, e as int));
    }
    (c, e)
}

fn slice_chars(v: &Vec<char>, from: usize, to: usize) -> (r: Vec<char>)
    requires
        from <= to <= v@.len(),
    ensures
        r@ == v@.subrange(from as int, to as int),
{
    let mut r: Vec<char> = Vec::new();
    let mut i: usize = from;
    while i < to
        invariant
            from <= i <= to,
            to <= v@.len(),
            r@ == v@.subrange(from as int, i as int),
        decreases to - i,
    {
        r.push(v[i]);
        assert(v@.subrange(from as int, i + 1) =~= v@.subrange(from as int, i as int).push(v@[i as int]));
        i = i + 1;
    }
    r
}

proof fn lemma_lines_step(s: Seq<char>, k: int)
    requires
        0 <= k <= s.len(),
        s.len() > 0,
        forall|j: int| 0 <= j < k ==> s[j] != '\n',
        k == s.len() || s[k] == '\n',
    ensures
        k == s.len() ==> lines(s) == seq![s],
        k < s.len() ==> lines(s) == seq![strip_cr(s.take(k))] + lines(s.skip(k + 1)),
{
    crate::text::lemma_head_before_take(s, '\n', k);
}

/// The routes of a routing table listing (one route per line, interface
/// last) that go through a utun device, as (destination, interface) pairs.
pub fn utun_routes(table: &str) -> (r: Vec<RouteToDelete>)
    ensures
        routes_view(r@) == utun_routes_of(lines(table@)),
{
    let text = chars_of(table);
    let n = text.len();
    let mut r: Vec<RouteToDelete> = Vec::new();
    let mut pos: usize = 0;
    assert(table@.skip(0) =~= table@);
    while pos < n
        invariant
            text@ == table@,
            n == table@.len(),
            pos <= n,
            utun_routes_of(lines(table@)) == routes_view(r@) + utun_routes_of(lines(table@.skip(pos as int))),
        decreases n - pos,
    {
        let mut k: usize = pos;
        while k < n && text[k] != '\n'
            invariant
                text@ == table@,
                n == table@.len(),
                pos <= k <= n,
                forall|j: int| pos <= j < k ==> table@[j] != '\n',
            decreases n - k,
        {
            k = k + 1;
        }
        let ghost s = table@.skip(pos as int);
        proof {
            assert forall|j: int| 0 <= j < k - pos implies s[j] != '\n' by {
                assert(s[j] == table@[pos + j]);
            }
            lemma_lines_step(s, k - pos);
        }
        let mut end = k;
        if k < n && end > pos && text[end - 1] == '\r' {
            end = end - 1;
        }
        let line = slice_chars(&text, pos, end);
        proof {
            if k < n {
                assert(s.take(k - pos) =~= table@.subrange(pos as int, k as int));
                assert(strip_cr(s.take(k - pos)) =~= table@.subrange(pos as int, end as int));
            } else {
                assert(s =~= table@.subrange(pos as int, end as int));
            }
        }
        let ghost lv = line@;
        let (c, e) = last_field_range(&line);
        let iface = table.substring_char(pos + c, pos + e).to_string();
        assert(iface@ =~= last_field(lv));
        let next_pos = if k < n { k + 1 } else { n };
        let ghost before = r@;
        if starts_with_str(iface.as_str(), "utun") {
            let (a, b) = first_field_range(&line);
            let dest = table.substring_char(pos + a, pos + b).to_string();
            assert(dest@ =~= first_field(lv));
            r.push(RouteToDelete { destination: dest, interface: iface });
            assert(routes_view(r@) =~= routes_view(before) + seq![(first_field(lv), last_field(lv))]);
        }
        proof {
            if k < n {
                assert(s.skip(k - pos + 1) =~= table@.skip(next_pos as int));
            } else {
                assert(table@.skip(next_pos as int) =~= Seq::<char>::empty());
                assert(lines(table@.skip(next_pos as int)) =~= Seq::<Seq<char>>::empty());
            }
            reveal_strlit("utun");
            let ls = lines(s);
            assert(ls[0] == lv);
            assert(ls.drop_first() =~= lines(table@.skip(next_pos as int)));
            let rest = utun_routes_of(ls.drop_first());
            if is_utun_line(lv) {
                assert(utun_routes_of(ls) == seq![(first_field(lv), last_field(lv))] + rest);
                assert(routes_view(before) + (seq![(first_field(lv), last_field(lv))] + rest)
                    =~= routes_view(r@) + rest);
            } else {
                assert(utun_routes_of(ls) == rest);
                assert(routes_view(r@) =~= routes_view(before));
            }
        }
        pos = next_pos;
    }
    assert(table@.skip(n as int) =~= Seq::<char>::empty());
    assert(routes_view(r@) + Seq::<(Seq<char>, Seq<char>)>::empty() =~= routes_view(r@));
    r
}

} // verus!

verus! {

/// Only routes through a utun device are ever deleted: every interface in
/// the result names a utun device, and the result has at most one route
/// per line of the listing.
pub proof fn law_only_utun_routes(ls: Seq<Seq<char>>)
    ensures
        utun_routes_of(ls).len() <= ls.len(),
        forall|i: int|
            0 <= i < utun_routes_of(ls).len() ==> {
                let iface = #[trigger] utun_routes_of(ls)[i].1;
                iface.len() >= 4 && iface.take(4) == "utun"@
            },
    decreases ls.len(),
{
    if ls.len() > 0 {
        law_only_utun_routes(ls.drop_first());
        let rest = utun_routes_of(ls.drop_first());
        if is_utun_line(ls[0]) {
            let r = utun_routes_of(ls);
            assert forall|i: int| 0 <= i < r.len() implies {
                let iface = #[trigger] r[i].1;
                iface.len() >= 4 && iface.take(4) == "utun"@
            } by {
                if i > 0 {
                    assert(r[i] == rest[i - 1]);
                }
            }
        }
    }
}

} // verus!
