use vstd::prelude::*;
use vstd::string::*;

verus! {

/// Whether `c` is a white-space character in the sense of Unicode's
/// `White_Space` property.
pub open spec fn is_space(c: char) -> bool {
    let u = c as u32;
    u == 0x09 || u == 0x0a || u == 0x0b || u == 0x0c || u == 0x0d || u == 0x20 || u == 0x85
        || u == 0xa0 || u == 0x1680 || (0x2000 <= u && u <= 0x200a) || u == 0x2028 || u
        == 0x2029 || u == 0x202f || u == 0x205f || u == 0x3000
}

/// Executable test for `is_space`.
pub fn char_is_space(c: char) -> (r: bool)
    ensures
        r == is_space(c),
{
    let u = c as u32;
    u == 0x09 || u == 0x0a || u == 0x0b || u == 0x0c || u == 0x0d || u == 0x20 || u == 0x85
        || u == 0xa0 || u == 0x1680 || (0x2000 <= u && u <= 0x200a) || u == 0x2028 || u
        == 0x2029 || u == 0x202f || u == 0x205f || u == 0x3000
}

/// `s` without its leading white space.
pub open spec fn skip_space(s: Seq<char>) -> Seq<char>
    decreases s.len(),
{
    if s.len() > 0 && is_space(s[0]) {
        skip_space(s.subrange(1, s.len() as int))
    } else {
        s
    }
}

/// `s` without its trailing white space.
pub open spec fn trim_end(s: Seq<char>) -> Seq<char>
    decreases s.len(),
{
    if s.len() > 0 && is_space(s.last()) {
        trim_end(s.drop_last())
    } else {
        s
    }
}

/// `s` without its leading and trailing white space.
pub open spec fn trim(s: Seq<char>) -> Seq<char> {
    trim_end(skip_space(s))
}

/// The characters of `s`, in order.
pub fn chars_of(s: &str) -> (r: Vec<char>)
    ensures
        r@ == s@,
{
    broadcast use vstd::string::axiom_spec_iter;
    let mut r: Vec<char> = Vec::new();
    for c in it: s.chars()
        invariant
            it.seq() == s@,
            r@ == it.seq().take(it.index() as int),
    {
        r.push(c);
    }
    r
}

/// Relies on `String::push`: appends one character.
#[verifier::external_body]
pub(crate) fn push_char(s: &mut String, c: char)
    ensures
        final(s)@ == old(s)@.push(c),
{
    s.push(c);
}

/// The string made of the characters `cs[lo..hi]`.
pub fn string_from(cs: &Vec<char>, lo: usize, hi: usize) -> (r: String)
    requires
        lo <= hi <= cs.len(),
    ensures
        r@ == cs@.subrange(lo as int, hi as int),
{
    let mut r = String::new();
    let mut i: usize = lo;
    while i < hi
        invariant
            lo <= i <= hi <= cs.len(),
            r@ == cs@.subrange(lo as int, i as int),
        decreases hi - i,
    {
        push_char(&mut r, cs[i]);
        assert(cs@.subrange(lo as int, i + 1) == cs@.subrange(lo as int, i as int).push(cs@[i as int]));
        i += 1;
    }
    r
}

/// The character sequences of a sequence of strings.
pub open spec fn views(v: Seq<String>) -> Seq<Seq<char>> {
    v.map_values(|x: String| x@)
}

/// The pieces of `s` between line feeds, in order: there is always one more
/// piece than there are line feeds.
pub open spec fn pieces(s: Seq<char>) -> Seq<Seq<char>>
    decreases s.len(),
{
    if s.len() == 0 {
        seq![Seq::empty()]
    } else {
        let p = pieces(s.drop_last());
        if s.last() == '\n' {
            p.push(Seq::empty())
        } else {
            p.update(p.len() - 1, p.last().push(s.last()))
        }
    }
}

/// `l` without one trailing carriage return.
pub open spec fn strip_cr(l: Seq<char>) -> Seq<char> {
    if l.len() > 0 && l.last() == '\r' {
        l.drop_last()
    } else {
        l
    }
}

/// The lines of `s`: the pieces between line feeds, each without a trailing
/// carriage return; a line feed that ends the text ends the last line and
/// starts none.
pub open spec fn lines_of(s: Seq<char>) -> Seq<Seq<char>> {
    let p = pieces(s);
    let q = if p.last().len() == 0 {
        p.drop_last()
    } else {
        p
    };
    q.map_values(|l: Seq<char>| strip_cr(l))
}

/// The string made of `cs[lo..hi]` without one trailing carriage return.
fn line_from(cs: &Vec<char>, lo: usize, hi: usize) -> (r: String)
    requires
        lo <= hi <= cs.len(),
    ensures
        r@ == strip_cr(cs@.subrange(lo as int, hi as int)),
{
    if lo < hi && cs[hi - 1] == '\r' {
        string_from(cs, lo, hi - 1)
    } else {
        string_from(cs, lo, hi)
    }
}

/// Splits `s` into its lines.
pub fn split_lines(s: &str) -> (r: Vec<String>)
    ensures
        views(r@) == lines_of(s@),
{
    let cs = chars_of(s);
    let n = cs.len();
    let mut r: Vec<String> = Vec::new();
    let ghost mut raw: Seq<Seq<char>> = Seq::empty();
    let mut start: usize = 0;
    let mut i: usize = 0;
    assert(cs@.take(0) =~= Seq::<char>::empty());
    while i < n
        invariant
            n == cs.len(),
            start <= i <= n,
            pieces(cs@.take(i as int)) == raw.push(cs@.subrange(start as int, i as int)),
            views(r@) == raw.map_values(|l: Seq<char>| strip_cr(l)),
        decreases n - i,
    {
        let ghost before = cs@.take(i as int);
        assert(cs@.take(i + 1).drop_last() =~= before);
        if cs[i] == '\n' {
            let line = line_from(&cs, start, i);
            let ghost old_r = r@;
            let ghost old_raw = raw;
            r.push(line);
            proof {
                raw = raw.push(cs@.subrange(start as int, i as int));
                assert(views(r@) =~= views(old_r).push(line@));
                assert(raw.map_values(|l: Seq<char>| strip_cr(l)) =~= old_raw.map_values(
                    |l: Seq<char>| strip_cr(l),
                ).push(line@));
                assert(cs@.subrange(i + 1, i + 1) =~= Seq::<char>::empty());
                assert(views(r@) =~= raw.map_values(|l: Seq<char>| strip_cr(l)));
            }
            start = i + 1;
        } else {
            assert(cs@.subrange(start as int, i + 1) =~= cs@.subrange(start as int, i as int).push(cs@[i as int]));
        }
        i += 1;
    }
    assert(cs@.take(n as int) =~= cs@);
    if start < n {
        let line = line_from(&cs, start, n);
        let ghost old_r = r@;
        r.push(line);
        proof {
            let last = cs@.subrange(start as int, n as int);
            assert(views(r@) =~= views(old_r).push(line@));
            assert(raw.push(last).map_values(|l: Seq<char>| strip_cr(l)) =~= raw.map_values(
                |l: Seq<char>| strip_cr(l),
            ).push(line@));
            assert(last.len() > 0);
            assert(views(r@) =~= raw.push(last).map_values(|l: Seq<char>| strip_cr(l)));
        }
    } else {
        assert(raw.push(cs@.subrange(start as int, n as int)).drop_last() =~= raw);
    }
    r
}

/// Whether `s[i..i + p.len()]` is `p`.
pub open spec fn occurs_at(s: Seq<char>, p: Seq<char>, i: int) -> bool {
    0 <= i && i + p.len() <= s.len() && s.subrange(i, i + p.len()) == p
}

/// Whether `p` occurs in `s`.
pub open spec fn contains(s: Seq<char>, p: Seq<char>) -> bool {
    exists|i: int| occurs_at(s, p, i)
}

/// Whether `s` starts with `p`.
pub open spec fn starts_with(s: Seq<char>, p: Seq<char>) -> bool {
    occurs_at(s, p, 0)
}

/// `s` with every occurrence of `p` replaced by `w`, occurrences taken from
/// left to right without overlap. An empty `p` leaves `s` as it is.
pub open spec fn replace_all(s: Seq<char>, p: Seq<char>, w: Seq<char>) -> Seq<char>
    decreases s.len(),
{
    if p.len() == 0 || s.len() < p.len() {
        s
    } else if s.subrange(0, p.len() as int) == p {
        w + replace_all(s.subrange(p.len() as int, s.len() as int), p, w)
    } else {
        seq![s[0]] + replace_all(s.subrange(1, s.len() as int), p, w)
    }
}

/// Whether `p` occurs in `s` at index `i`.
pub fn occurs_at_exec(s: &Vec<char>, p: &Vec<char>, i: usize) -> (r: bool)
    ensures
        r == occurs_at(s@, p@, i as int),
{
    if i > s.len() || p.len() > s.len() - i {
        return false;
    }
    let mut j: usize = 0;
    while j < p.len()
        invariant
            i + p.len() <= s.len(),
            j <= p.len(),
            forall|k: int| 0 <= k < j ==> s@[i + k] == p@[k],
        decreases p.len() - j,
    {
        if s[i + j] != p[j] {
            assert(s@.subrange(i as int, i + p.len())[j as int] != p@[j as int]);
            return false;
        }
        j += 1;
    }
    assert(s@.subrange(i as int, i + p.len()) =~= p@);
    true
}

/// Whether `s` starts with `p`.
pub fn starts_with_exec(s: &Vec<char>, p: &Vec<char>) -> (r: bool)
    ensures
        r == starts_with(s@, p@),
{
    occurs_at_exec(s, p, 0)
}

/// Replaces every occurrence of `token` in `cmd` by `value`.
pub fn substitute(cmd: &str, token: &str, value: &str) -> (r: String)
    ensures
        r@ == replace_all(cmd@, token@, value@),
{
    let s = chars_of(cmd);
    let p = chars_of(token);
    let n = s.len();
    let plen = p.len();
    if plen == 0 {
        return String::from_str(cmd);
    }
    let mut r = String::new();
    let mut i: usize = 0;
    assert(s@.subrange(0, n as int) =~= s@);
    while i < n
        invariant
            n == s.len(),
            plen == p.len() > 0,
            i <= n,
            replace_all(s@, p@, value@) == r@ + replace_all(
                s@.subrange(i as int, n as int),
                p@,
                value@,
            ),
        decreases n - i,
    {
        let ghost rest = s@.subrange(i as int, n as int);
        if n - i < plen {
            let tail = string_from(&s, i, n);
            r.append(tail.as_str());
            assert(r@ + replace_all(s@.subrange(n as int, n as int), p@, value@) =~= r@);
            i = n;
        } else if occurs_at_exec(&s, &p, i) {
            assert(rest.subrange(0, plen as int) =~= s@.subrange(i as int, i + plen));
            assert(rest.subrange(plen as int, rest.len() as int) =~= s@.subrange(i + plen, n as int));
            let ghost r0 = r@;
            r.append(value);
            assert(r0 + (value@ + replace_all(s@.subrange(i + plen, n as int), p@, value@)) =~= r@
                + replace_all(s@.subrange(i + plen, n as int), p@, value@));
            i += plen;
        } else {
            assert(rest.subrange(0, plen as int) =~= s@.subrange(i as int, i + plen));
            assert(rest.subrange(1, rest.len() as int) =~= s@.subrange(i + 1, n as int));
            let ghost r0 = r@;
            push_char(&mut r, s[i]);
            assert(r0 + (seq![s@[i as int]] + replace_all(s@.subrange(i + 1, n as int), p@, value@))
                =~= r@ + replace_all(s@.subrange(i + 1, n as int), p@, value@));
            i += 1;
        }
    }
    assert(replace_all(s@.subrange(n as int, n as int), p@, value@) =~= Seq::<char>::empty());
    assert(r@ + Seq::<char>::empty() =~= r@);
    r
}

/// A command in which the token does not occur is left unchanged by
/// substitution.
pub proof fn lemma_substitute_absent(cmd: Seq<char>, token: Seq<char>, value: Seq<char>)
    requires
        !contains(cmd, token),
    ensures
        replace_all(cmd, token, value) == cmd,
    decreases cmd.len(),
{
    if token.len() == 0 || cmd.len() < token.len() {
    } else {
        assert(!occurs_at(cmd, token, 0));
        let tail = cmd.subrange(1, cmd.len() as int);
        assert forall|i: int| !occurs_at(tail, token, i) by {
            if occurs_at(tail, token, i) {
                assert(cmd.subrange(i + 1, i + 1 + token.len()) =~= tail.subrange(i, i + token.len()));
                assert(occurs_at(cmd, token, i + 1));
            }
        }
        lemma_substitute_absent(tail, token, value);
        assert(seq![cmd[0]] + tail =~= cmd);
    }
}

/// `s` without its leading and trailing white space.
pub fn trim_exec(s: &str) -> (r: String)
    ensures
        r@ == trim(s@),
{
    let cs = chars_of(s);
    let n = cs.len();
    let mut lo: usize = 0;
    assert(cs@.subrange(0, n as int) =~= cs@);
    while lo < n && char_is_space(cs[lo])
        invariant
            n == cs.len(),
            lo <= n,
            skip_space(cs@) == skip_space(cs@.subrange(lo as int, n as int)),
        decreases n - lo,
    {
        assert(cs@.subrange(lo as int, n as int).subrange(1, n - lo) =~= cs@.subrange(lo + 1, n as int));
        lo += 1;
    }
    let mut hi: usize = n;
    while hi > lo && char_is_space(cs[hi - 1])
        invariant
            n == cs.len(),
            lo <= hi <= n,
            trim(cs@) == trim_end(cs@.subrange(lo as int, hi as int)),
        decreases hi,
    {
        assert(cs@.subrange(lo as int, hi as int).drop_last() =~= cs@.subrange(lo as int, hi - 1));
        hi -= 1;
    }
    string_from(&cs, lo, hi)
}

} // verus!
