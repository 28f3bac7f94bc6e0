//! What the daemon says to Hyprland through `hyprctl`, and how it reads the
//! replies: the version probe that picks the Lua or the legacy transport,
//! Lua string quoting, the dispatcher mapping and the `eval` error check.
//! Running `hyprctl` itself is left to the caller.

use vstd::prelude::*;
use crate::text::{
    all_digits, chars_of, same_text, string_of, digit_value, digits_value, is_digit, is_white_char, push_char, skip_white,
    skip_word, end_of_text, trim_end, trim_start,
};

verus! {

// ---------------------------------------------------------------------------
// Lua string literals
// ---------------------------------------------------------------------------

/// How one character is written inside a Lua string literal: backslash,
/// double quote and newline are escaped, every other character stands as is.
pub open spec fn lua_escape_char(c: char) -> Seq<char> {
    if c == '\\' {
        seq!['\\', '\\']
    } else if c == '"' {
        seq!['\\', '"']
    } else if c == '\n' {
        seq!['\\', 'n']
    } else {
        seq![c]
    }
}

/// The body of the Lua string literal for `s`.
pub open spec fn lua_escape(s: Seq<char>) -> Seq<char>
    decreases s.len(),
{
    if s.len() == 0 {
        Seq::empty()
    } else {
        lua_escape_char(s[0]) + lua_escape(s.drop_first())
    }
}

/// The Lua string literal for `s`: its escaped body between double quotes.
pub open spec fn lua_quote(s: Seq<char>) -> Seq<char> {
    seq!['"'] + lua_escape(s) + seq!['"']
}

/// How Lua reads the body of a string literal back, for the escapes that
/// `lua_escape` writes: `\n` is a newline, a backslash before any other
/// character stands for that character.
pub open spec fn lua_unescape(t: Seq<char>) -> Seq<char>
    decreases t.len(),
{
    if t.len() == 0 {
        Seq::empty()
    } else if t[0] == '\\' && t.len() >= 2 {
        seq![if t[1] == 'n' { '\n' } else { t[1] }] + lua_unescape(t.skip(2))
    } else {
        seq![t[0]] + lua_unescape(t.skip(1))
    }
}

proof fn lemma_lua_escape_push(s: Seq<char>, c: char)
    ensures
        lua_escape(s.push(c)) == lua_escape(s) + lua_escape_char(c),
    decreases s.len(),
{
    if s.len() == 0 {
        assert(s.push(c).drop_first() =~= Seq::<char>::empty());
        assert(lua_escape(s.push(c).drop_first()) == Seq::<char>::empty());
        assert(lua_escape(s.push(c)) =~= lua_escape(s) + lua_escape_char(c));
    } else {
        assert(s.push(c).drop_first() =~= s.drop_first().push(c));
        lemma_lua_escape_push(s.drop_first(), c);
        assert(lua_escape(s.push(c)) =~= lua_escape(s) + lua_escape_char(c));
    }
}

proof fn lemma_lua_round_trip(s: Seq<char>)
    ensures
        lua_unescape(lua_escape(s)) == s,
    decreases s.len(),
{
    if s.len() > 0 {
        let rest = s.drop_first();
        let t = lua_escape(s);
        let e = lua_escape_char(s[0]);
        lemma_lua_round_trip(rest);
        assert(t == e + lua_escape(rest));
        if e.len() == 1 {
            assert(t.skip(1) =~= lua_escape(rest));
        } else {
            assert(t.skip(2) =~= lua_escape(rest));
        }
        assert(lua_unescape(t) =~= s);
    }
}

proof fn lemma_lua_escape_has_no_newline(s: Seq<char>)
    ensures
        !lua_escape(s).contains('\n'),
    decreases s.len(),
{
    if s.len() > 0 {
        lemma_lua_escape_has_no_newline(s.drop_first());
        let e = lua_escape_char(s[0]);
        let r = lua_escape(s.drop_first());
        assert forall|i: int| 0 <= i < (e + r).len() implies (e + r)[i] != '\n' by {
            if i >= e.len() {
                assert((e + r)[i] == r[i - e.len()]);
            }
        }
    }
}

/// Quoting is undone by reading back: the literal that `lua_string` writes
/// for `s` is `s` between double quotes, Lua reads `s` back from it, and it
/// holds no raw newline.
pub proof fn lua_quote_reads_back(s: Seq<char>)
    ensures
        lua_quote(s).len() >= 2,
        lua_quote(s)[0] == '"',
        lua_quote(s).last() == '"',
        lua_unescape(lua_quote(s).subrange(1, lua_quote(s).len() - 1)) == s,
        forall|i: int| 0 < i < lua_quote(s).len() - 1 ==> #[trigger] lua_quote(s)[i] != '\n',
{
    let q = lua_quote(s);
    assert(q.subrange(1, q.len() - 1) =~= lua_escape(s));
    lemma_lua_round_trip(s);
    lemma_lua_escape_has_no_newline(s);
    assert forall|i: int| 0 < i < q.len() - 1 implies #[trigger] q[i] != '\n' by {
        assert(q[i] == lua_escape(s)[i - 1]);
    }
}

/// The character that Lua's one-character escape `\c` stands for, if `c`
/// makes one (`\a \b \f \n \r \t \v \\ \" \'`). Lua's numeric and other
/// escapes are not modelled: a reader here refuses them.
pub open spec fn lua_simple_escape(c: char) -> Option<char> {
    if c == 'a' {
        Some('\u{7}')
    } else if c == 'b' {
        Some('\u{8}')
    } else if c == 'f' {
        Some('\u{c}')
    } else if c == 'n' {
        Some('\n')
    } else if c == 'r' {
        Some('\r')
    } else if c == 't' {
        Some('\t')
    } else if c == 'v' {
        Some('\u{b}')
    } else if c == '\\' || c == '"' || c == '\'' {
        Some(c)
    } else {
        None
    }
}

/// How Lua reads the body of a double-quoted string literal: `None` where
/// Lua refuses it (a backslash that begins no escape, or ends the body) or
/// where the literal would not be this body (a bare double quote ends it, a
/// bare newline is an unfinished string).
pub open spec fn lua_read_body(t: Seq<char>) -> Option<Seq<char>>
    decreases t.len(),
{
    if t.len() == 0 {
        Some(Seq::empty())
    } else if t[0] == '\\' {
        if t.len() < 2 {
            None
        } else {
            match lua_simple_escape(t[1]) {
                None => None,
                Some(c) => match lua_read_body(t.skip(2)) {
                    Some(r) => Some(seq![c] + r),
                    None => None,
                },
            }
        }
    } else if t[0] == '"' || t[0] == '\n' {
        None
    } else {
        match lua_read_body(t.skip(1)) {
            Some(r) => Some(seq![t[0]] + r),
            None => None,
        }
    }
}

/// The characters that quoting escapes.
pub open spec fn lua_special(c: char) -> bool {
    c == '\\' || c == '"' || c == '\n'
}

proof fn lemma_lua_read_escape(s: Seq<char>)
    ensures
        lua_read_body(lua_escape(s)) == Some(s),
    decreases s.len(),
{
    if s.len() > 0 {
        let rest = s.drop_first();
        let t = lua_escape(s);
        let e = lua_escape_char(s[0]);
        lemma_lua_read_escape(rest);
        assert(t == e + lua_escape(rest));
        if e.len() == 1 {
            assert(t.skip(1) =~= lua_escape(rest));
        } else {
            assert(t.skip(2) =~= lua_escape(rest));
        }
        assert(lua_read_body(t) == Some(seq![s[0]] + rest));
        assert(seq![s[0]] + rest =~= s);
    }
}

proof fn lemma_lua_escape_plain(s: Seq<char>)
    requires
        forall|i: int| 0 <= i < s.len() ==> !lua_special(#[trigger] s[i]),
    ensures
        lua_escape(s) == s,
    decreases s.len(),
{
    if s.len() > 0 {
        assert(!lua_special(s[0]));
        lemma_lua_escape_plain(s.drop_first());
        assert(lua_escape(s) =~= s);
    }
}

/// The literal that quoting writes is one Lua accepts and reads back as the
/// quoted text: every backslash in its body begins the escape `\\`, `\"` or
/// `\n`, and no bare double quote or newline stands in it. Text without
/// backslashes, double quotes and newlines is written unchanged between the
/// quotes.
pub proof fn lua_literal_is_valid_and_exact(s: Seq<char>)
    ensures
        lua_read_body(lua_quote(s).subrange(1, lua_quote(s).len() - 1)) == Some(s),
        (forall|i: int| 0 <= i < s.len() ==> !lua_special(#[trigger] s[i])) ==> lua_quote(s)
            == seq!['"'] + s + seq!['"'],
{
    let q = lua_quote(s);
    assert(q.subrange(1, q.len() - 1) =~= lua_escape(s));
    lemma_lua_read_escape(s);
    if forall|i: int| 0 <= i < s.len() ==> !lua_special(#[trigger] s[i]) {
        lemma_lua_escape_plain(s);
    }
}

/// Quotes `s` as a Lua string literal (backslash, double quote and newline
/// escaped).
pub fn lua_string(s: &str) -> (out: String)
    ensures
        out@ == lua_quote(s@),
{
    let cs = chars_of(s);
    let mut out = String::new();
    push_char(&mut out, '"');
    let mut i: usize = 0;
    while i < cs.len()
        invariant
            cs@ == s@,
            i <= cs.len(),
            out@ == seq!['"'] + lua_escape(cs@.take(i as int)),
        decreases cs.len() - i,
    {
        let c = cs[i];
        proof {
            lemma_lua_escape_push(cs@.take(i as int), c);
            assert(cs@.take(i + 1) =~= cs@.take(i as int).push(c));
        }
        if c == '\\' {
            push_char(&mut out, '\\');
            push_char(&mut out, '\\');
        } else if c == '"' {
            push_char(&mut out, '\\');
            push_char(&mut out, '"');
        } else if c == '\n' {
            push_char(&mut out, '\\');
            push_char(&mut out, 'n');
        } else {
            push_char(&mut out, c);
        }
        assert(out@ =~= seq!['"'] + lua_escape(cs@.take(i + 1)));
        i = i + 1;
    }
    push_char(&mut out, '"');
    assert(cs@.take(cs.len() as int) =~= cs@);
    assert(out@ =~= lua_quote(s@));
    out
}

// ---------------------------------------------------------------------------
// The version probe
// ---------------------------------------------------------------------------

/// The first index at or after `i` that holds `c` (the length of `s` when
/// there is none).
pub open spec fn find_char(s: Seq<char>, c: char, i: int) -> int
    decreases s.len() - i,
{
    if i < 0 || i >= s.len() {
        s.len() as int
    } else if s[i] == c {
        i
    } else {
        find_char(s, c, i + 1)
    }
}

/// The first item of `str::lines`: the text before the first newline,
/// without a carriage return that ends it; `None` for empty text.
pub open spec fn first_line(s: Seq<char>) -> Option<Seq<char>> {
    if s.len() == 0 {
        None
    } else {
        let k = find_char(s, '\n', 0);
        if k < s.len() {
            let l = s.take(k);
            if l.len() > 0 && l.last() == '\r' {
                Some(l.drop_last())
            } else {
                Some(l)
            }
        } else {
            Some(s)
        }
    }
}

/// The second item of `str::split_whitespace`, if there is one.
pub open spec fn second_word(l: Seq<char>) -> Option<Seq<char>> {
    let a = skip_white(l, 0);
    let b = skip_word(l, a);
    let c = skip_white(l, b);
    if a >= l.len() || c >= l.len() {
        None
    } else {
        Some(l.subrange(c, skip_word(l, c)))
    }
}

/// The first item of `split('.')`: the text before the first dot.
pub open spec fn first_field(v: Seq<char>) -> Seq<char> {
    v.take(find_char(v, '.', 0))
}

/// The second item of `split('.')`, if there is one.
pub open spec fn second_field(v: Seq<char>) -> Option<Seq<char>> {
    let p = find_char(v, '.', 0);
    if p >= v.len() {
        None
    } else {
        Some(v.subrange(p + 1, find_char(v, '.', p + 1)))
    }
}

/// What `str::parse::<u32>` gives: an optional `+`, then one or more ASCII
/// digits whose value fits in a `u32`; `None` otherwise.
pub open spec fn parse_u32(t: Seq<char>) -> Option<nat> {
    let d = if t.len() > 0 && t[0] == '+' { t.drop_first() } else { t };
    if d.len() == 0 || !all_digits(d) || digits_value(d) > u32::MAX {
        None
    } else {
        Some(digits_value(d))
    }
}

/// A number read with `parse_u32`, 0 where it cannot be read.
pub open spec fn number_or_zero(t: Option<Seq<char>>) -> nat {
    match t {
        Some(f) => match parse_u32(f) {
            Some(n) => n,
            None => 0,
        },
        None => 0,
    }
}

/// Whether the output of `hyprctl version` names a Hyprland that reads its
/// configuration with Lua: the second word of the first line is the version,
/// and a major number above 0 or a minor number of at least 55 means Lua
/// (numbers that cannot be read count as 0).
pub open spec fn version_uses_lua(out: Seq<char>) -> bool {
    match first_line(out) {
        None => false,
        Some(l) => match second_word(l) {
            None => false,
            Some(v) => number_or_zero(Some(first_field(v))) > 0 || number_or_zero(
                second_field(v),
            ) >= 55,
        },
    }
}

fn find_char_from(v: &Vec<char>, c: char, from: usize, to: usize) -> (k: usize)
    requires
        from <= to <= v.len(),
    ensures
        from <= k <= to,
        k < to ==> v@[k as int] == c,
        forall|j: int| from <= j < k ==> v@[j] != c,
{
    let mut i = from;
    while i < to && v[i] != c
        invariant
            from <= i <= to <= v.len(),
            forall|j: int| from <= j < i ==> v@[j] != c,
        decreases to - i,
    {
        i = i + 1;
    }
    i
}

proof fn lemma_find_char(s: Seq<char>, c: char, i: int, k: int)
    requires
        0 <= i <= k <= s.len(),
        k < s.len() ==> s[k] == c,
        forall|j: int| i <= j < k ==> s[j] != c,
    ensures
        find_char(s, c, i) == k,
    decreases k - i,
{
    if i < k {
        lemma_find_char(s, c, i + 1, k);
    }
}

fn skip_white_from(v: &Vec<char>, from: usize) -> (k: usize)
    requires
        from <= v.len(),
    ensures
        k == skip_white(v@, from as int),
        from <= k <= v.len(),
{
    let mut i = from;
    while i < v.len() && is_white_char(v[i])
        invariant
            from <= i <= v.len(),
            skip_white(v@, from as int) == skip_white(v@, i as int),
        decreases v.len() - i,
    {
        i = i + 1;
    }
    i
}

fn skip_word_from(v: &Vec<char>, from: usize) -> (k: usize)
    requires
        from <= v.len(),
    ensures
        k == skip_word(v@, from as int),
        from <= k <= v.len(),
{
    let mut i = from;
    while i < v.len() && !is_white_char(v[i])
        invariant
            from <= i <= v.len(),
            skip_word(v@, from as int) == skip_word(v@, i as int),
        decreases v.len() - i,
    {
        i = i + 1;
    }
    i
}

/// Reads `v[from..to]` with `parse_u32`, 0 where it cannot be read.
fn read_number(v: &Vec<char>, from: usize, to: usize) -> (n: u32)
    requires
        from <= to <= v.len(),
    ensures
        n == number_or_zero(Some(v@.subrange(from as int, to as int))),
{
    let ghost t = v@.subrange(from as int, to as int);
    let mut start = from;
    if from < to && v[from] == '+' {
        start = from + 1;
    }
    let ghost d = v@.subrange(start as int, to as int);
    assert(d == if t.len() > 0 && t[0] == '+' { t.drop_first() } else { t });
    if start == to {
        return 0;
    }
    let mut value: u64 = 0;
    let mut over = false;
    let mut i = start;
    while i < to
        invariant
            from <= start <= i <= to <= v.len(),
            d == v@.subrange(start as int, to as int),
            t == v@.subrange(from as int, to as int),
            d == (if t.len() > 0 && t[0] == '+' { t.drop_first() } else { t }),
            all_digits(d.take(i - start)),
            over ==> digits_value(d.take(i - start)) > u32::MAX,
            !over ==> value == digits_value(d.take(i - start)) && value <= u32::MAX,
        decreases to - i,
    {
        let c = v[i];
        if !('0' <= c && c <= '9') {
            assert(d[i - start] == c);
            assert(!is_digit(d[i - start]));
            assert(!all_digits(d));
            return 0;
        }
        let dig: u64 = ((c as u32) - ('0' as u32)) as u64;
        let ghost k = (i - start) as int;
        assert(d.take(k + 1).drop_last() =~= d.take(k));
        assert(d.take(k + 1).last() == c);
        assert(digits_value(d.take(k + 1)) == digits_value(d.take(k)) * 10 + digit_value(c));
        assert(all_digits(d.take(k + 1))) by {
            assert forall|j: int| 0 <= j < k + 1 implies is_digit(#[trigger] d.take(k + 1)[j]) by {
                if j < k {
                    assert(d.take(k + 1)[j] == d.take(k)[j]);
                }
            }
        }
        if !over {
            value = value * 10 + dig;
            if value > 4294967295 {
                over = true;
            }
        } else {
            assert(digits_value(d.take(k + 1)) >= digits_value(d.take(k)));
        }
        i = i + 1;
    }
    assert(d.take(to - start) =~= d);
    if over {
        0
    } else {
        value as u32
    }
}

/// Decides, from the probe `hyprctl version`, whether the running Hyprland
/// reads its configuration with Lua (0.55 and later): `succeeded` is whether
/// the command ran and exited successfully, `stdout` its output. A failed
/// probe means the legacy parser.
pub fn lua_parser_from_version(succeeded: bool, stdout: &str) -> (lua: bool)
    ensures
        lua == (succeeded && version_uses_lua(stdout@)),
{
    if !succeeded {
        return false;
    }
    let s = chars_of(stdout);
    if s.len() == 0 {
        return false;
    }
    let ghost g = s@;
    let nl = find_char_from(&s, '\n', 0, s.len());
    proof {
        lemma_find_char(g, '\n', 0, nl as int);
    }
    let mut line_end = nl;
    if nl < s.len() && nl > 0 && s[nl - 1] == '\r' {
        line_end = nl - 1;
    }
    // the first line is s[0..line_end]
    let ghost l = g.take(line_end as int);
    assert(first_line(g) == Some(l)) by {
        if nl < s.len() {
            if nl > 0 && g[nl - 1] == '\r' {
                assert(g.take(nl as int).drop_last() =~= l);
            } else {
                assert(g.take(nl as int) =~= l);
            }
        } else {
            assert(g =~= l);
        }
    }
    let line = slice_vec(&s, 0, line_end);
    assert(line@ =~= l);
    let a = skip_white_from(&line, 0);
    if a >= line.len() {
        return false;
    }
    let b = skip_word_from(&line, a);
    let c = skip_white_from(&line, b);
    if c >= line.len() {
        return false;
    }
    let d = skip_word_from(&line, c);
    let ghost word = l.subrange(c as int, d as int);
    assert(second_word(l) == Some(word));
    let ver = slice_vec(&line, c, d);
    assert(ver@ =~= word);
    let p = find_char_from(&ver, '.', 0, ver.len());
    proof {
        lemma_find_char(word, '.', 0, p as int);
    }
    let major = read_number(&ver, 0, p);
    assert(ver@.subrange(0, p as int) =~= first_field(word));
    let mut minor: u32 = 0;
    if p < ver.len() {
        let q = find_char_from(&ver, '.', p + 1, ver.len());
        proof {
            lemma_find_char(word, '.', p + 1, q as int);
        }
        minor = read_number(&ver, p + 1, q);
    }
    major > 0 || minor >= 55
}

fn slice_vec(v: &Vec<char>, from: usize, to: usize) -> (r: Vec<char>)
    requires
        from <= to <= v.len(),
    ensures
        r@ == v@.subrange(from as int, to as int),
{
    let mut r: Vec<char> = Vec::new();
    let mut i = from;
    while i < to
        invariant
            from <= i <= to <= v.len(),
            r@ == v@.subrange(from as int, i as int),
        decreases to - i,
    {
        r.push(v[i]);
        assert(v@.subrange(from as int, i + 1) =~= v@.subrange(from as int, i as int).push(v@[i as int]));
        i = i + 1;
    }
    r
}

// ---------------------------------------------------------------------------
// `hyprctl eval` replies and dispatchers
// ---------------------------------------------------------------------------

/// Whether `s` begins with `p`.
pub open spec fn starts_with(s: Seq<char>, p: Seq<char>) -> bool {
    p.len() <= s.len() && s.take(p.len() as int) == p
}

/// What a reply of `hyprctl eval` (which always exits 0) means: a reply that
/// begins, after leading white space, with `error:` is a failure, reported
/// as `hyprctl eval: ` and the reply without its surrounding white space.
pub open spec fn eval_reply_outcome(out: Seq<char>) -> Result<(), Seq<char>> {
    let t = trim_start(out);
    if starts_with(t, "error:"@) {
        Err("hyprctl eval: "@ + trim_end(t))
    } else {
        Ok(())
    }
}

/// A `Result` with a `String` error, the error taken by its characters.
pub open spec fn result_view(r: Result<(), String>) -> Result<(), Seq<char>> {
    match r {
        Ok(()) => Ok(()),
        Err(m) => Err(m@),
    }
}

/// Reads the standard output of `hyprctl eval <expr>`: `Err` with a message
/// when Hyprland printed an `error:` reply, `Ok` otherwise.
pub fn check_eval_reply(stdout: &str) -> (r: Result<(), String>)
    ensures
        result_view(r) == eval_reply_outcome(stdout@),
{
    let s = chars_of(stdout);
    let ghost g = s@;
    let a = skip_white_from(&s, 0);
    let ghost t = g.skip(a as int);
    assert(t == trim_start(g));
    let p = chars_of("error:");
    if p.len() > s.len() - a {
        assert(!starts_with(t, "error:"@));
        return Ok(());
    }
    let mut i: usize = 0;
    while i < p.len()
        invariant
            p@ == "error:"@,
            s@ == g,
            g == stdout@,
            t == trim_start(g),
            t == g.skip(a as int),
            a + p.len() <= s.len(),
            i <= p.len(),
            forall|j: int| 0 <= j < i ==> t[j] == p@[j],
        decreases p.len() - i,
    {
        assert(t[i as int] == g[a + i]);
        if s[a + i] != p[i] {
            assert(t.take(p.len() as int)[i as int] == t[i as int]);
            assert(t.take(p.len() as int)[i as int] != p@[i as int]);
            assert(!starts_with(t, "error:"@));
            return Ok(());
        }
        i = i + 1;
    }
    assert(t.take(p.len() as int) =~= p@);
    let mut e = s.len();
    while e > a && is_white_char(s[e - 1])
        invariant
            s@ == g,
            t == g.skip(a as int),
            a <= e <= s.len(),
            end_of_text(t, t.len() as int) == end_of_text(t, e - a),
        decreases e,
    {
        assert(t[e - a - 1] == g[e - 1]);
        e = e - 1;
    }
    proof {
        if e > a {
            assert(t[e - a - 1] == g[e - 1]);
        }
        assert(end_of_text(t, e - a) == e - a);
        assert(trim_end(t) =~= g.subrange(a as int, e as int));
    }
    let mut msg = String::from_str("hyprctl eval: ");
    let rest = string_of(&s, a, e);
    msg.append(rest.as_str());
    Err(msg)
}

/// How a dispatcher call reaches Hyprland.
#[derive(Debug, PartialEq, Eq)]
pub enum DispatchPlan {
    /// Run `hyprctl eval <expression>` (Lua parser, Hyprland 0.55 and later).
    Eval(String),
    /// Run `hyprctl dispatch <dispatcher> <args>` (legacy parser).
    Legacy,
}

/// The Lua expression that sends the layout message `args`.
pub open spec fn layout_message_lua(args: Seq<char>) -> Seq<char> {
    "hl.dispatch(hl.dsp.layout("@ + lua_quote(args) + "))"@
}

/// The error for a dispatcher that has no Lua equivalent.
pub open spec fn unmapped_dispatcher_message(dispatcher: Seq<char>) -> Seq<char> {
    "no Lua mapping for legacy dispatcher '"@ + dispatcher
        + "'; add a case in hypr_ipc::hypr_dispatch"@
}

/// Picks the transport for a dispatcher call: the legacy `hyprctl dispatch`
/// when Hyprland uses the legacy parser; under Lua, `layoutmsg` becomes
/// `hl.dispatch(hl.dsp.layout("<args>"))` and any other dispatcher is an
/// error.
pub fn plan_dispatch(use_lua: bool, dispatcher: &str, args: &str) -> (r: Result<DispatchPlan, String>)
    ensures
        !use_lua ==> r matches Ok(DispatchPlan::Legacy),
        use_lua && dispatcher@ == "layoutmsg"@ ==> (r matches Ok(DispatchPlan::Eval(lua))
            && lua@ == layout_message_lua(args@)),
        use_lua && dispatcher@ != "layoutmsg"@ ==> (r matches Err(m) && m@
            == unmapped_dispatcher_message(dispatcher@)),
{
    if !use_lua {
        return Ok(DispatchPlan::Legacy);
    }
    if same_text(dispatcher, "layoutmsg") {
        let mut lua = String::from_str("hl.dispatch(hl.dsp.layout(");
        let quoted = lua_string(args);
        lua.append(quoted.as_str());
        lua.append("))");
        Ok(DispatchPlan::Eval(lua))
    } else {
        let mut m = String::from_str("no Lua mapping for legacy dispatcher '");
        m.append(dispatcher);
        m.append("'; add a case in hypr_ipc::hypr_dispatch");
        Err(m)
    }
}

} // verus!
