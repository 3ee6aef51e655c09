//! Character-level text helpers with their specifications.
//!
//! Strings are modelled by their views, sequences of characters.  The
//! helpers here take and return `Vec<char>` so that the callers can index
//! them; [`chars_of`] and [`string_from`] convert at the edges.
use vstd::prelude::*;

verus! {

broadcast use vstd::string::group_string_axioms;

// ───────────────────────────── conversions ─────────────────────────────

/// The characters of `s`, in order.
pub fn chars_of(s: &str) -> (out: Vec<char>)
    ensures
        out@ == s@,
{
    let mut out: Vec<char> = Vec::new();
    for c in it: s.chars()
        invariant
            out@ == it.seq().take(it.index()),
    {
        out.push(c);
    }
    out
}

/// `String::push`: appends one character.
#[verifier::external_body]
fn push_char(s: &mut String, c: char)
    ensures
        final(s)@ == old(s)@.push(c),
{
    s.push(c);
}

/// The string made of the characters of `v`.
pub fn string_from(v: &[char]) -> (out: String)
    ensures
        out@ == v@,
{
    let mut out = String::new();
    let mut i: usize = 0;
    while i < v.len()
        invariant
            i <= v@.len(),
            out@ == v@.take(i as int),
        decreases v@.len() - i,
    {
        push_char(&mut out, v[i]);
        i = i + 1;
        assert(out@ =~= v@.take(i as int));
    }
    assert(v@.take(v@.len() as int) =~= v@);
    out
}

/// The characters `s[a..b]`.
pub fn copy_range(s: &[char], a: usize, b: usize) -> (out: Vec<char>)
    requires
        a <= b <= s@.len(),
    ensures
        out@ == s@.subrange(a as int, b as int),
{
    let mut out: Vec<char> = Vec::new();
    let mut i = a;
    while i < b
        invariant
            a <= i <= b <= s@.len(),
            out@ == s@.subrange(a as int, i as int),
        decreases b - i,
    {
        out.push(s[i]);
        i = i + 1;
        assert(out@ =~= s@.subrange(a as int, i as int));
    }
    out
}

/// Appends the characters of `extra` to `out`.
pub fn extend_chars(out: &mut Vec<char>, extra: &[char])
    ensures
        final(out)@ == old(out)@ + extra@,
{
    let ghost start = out@;
    let mut i: usize = 0;
    while i < extra.len()
        invariant
            i <= extra@.len(),
            out@ == start + extra@.take(i as int),
        decreases extra@.len() - i,
    {
        out.push(extra[i]);
        i = i + 1;
        assert(out@ =~= start + extra@.take(i as int));
    }
    assert(extra@.take(extra@.len() as int) =~= extra@);
}

/// Whether two character sequences are equal.
pub fn chars_eq(a: &[char], b: &[char]) -> (r: bool)
    ensures
        r == (a@ == b@),
{
    if a.len() != b.len() {
        return false;
    }
    let mut i: usize = 0;
    while i < a.len()
        invariant
            a@.len() == b@.len(),
            i <= a@.len(),
            forall|j: int| 0 <= j < i ==> a@[j] == b@[j],
        decreases a@.len() - i,
    {
        if a[i] != b[i] {
            return false;
        }
        i = i + 1;
    }
    assert(a@ =~= b@);
    true
}

/// Whether the text of `a` equals the literal `lit`.
pub fn is_literal(a: &[char], lit: &str) -> (r: bool)
    ensures
        r == (a@ == lit@),
{
    let l = chars_of(lit);
    chars_eq(a, l.as_slice())
}

// ───────────────────────────── whitespace ─────────────────────────────

/// Unicode `White_Space`, as `char::is_whitespace` classifies it.
pub open spec fn is_whitespace(c: char) -> bool {
    let u = c as u32;
    ||| 0x09 <= u <= 0x0D
    ||| u == 0x20
    ||| u == 0x85
    ||| u == 0xA0
    ||| u == 0x1680
    ||| 0x2000 <= u <= 0x200A
    ||| u == 0x2028
    ||| u == 0x2029
    ||| u == 0x202F
    ||| u == 0x205F
    ||| u == 0x3000
}

/// `char::is_whitespace`.
pub fn char_is_whitespace(c: char) -> (r: bool)
    ensures
        r == is_whitespace(c),
{
    let u = c as u32;
    (0x09 <= u && u <= 0x0D) || u == 0x20 || u == 0x85 || u == 0xA0 || u == 0x1680 || (0x2000
        <= u && u <= 0x200A) || u == 0x2028 || u == 0x2029 || u == 0x202F || u == 0x205F || u
        == 0x3000
}

/// `s` without its leading whitespace.
pub open spec fn trim_start(s: Seq<char>) -> Seq<char>
    decreases s.len(),
{
    if s.len() > 0 && is_whitespace(s[0]) {
        trim_start(s.drop_first())
    } else {
        s
    }
}

/// `s` without its trailing whitespace.
pub open spec fn trim_end(s: Seq<char>) -> Seq<char>
    decreases s.len(),
{
    if s.len() > 0 && is_whitespace(s.last()) {
        trim_end(s.drop_last())
    } else {
        s
    }
}

/// `str::trim`: `s` without leading and trailing whitespace.
pub open spec fn trim(s: Seq<char>) -> Seq<char> {
    trim_end(trim_start(s))
}

/// `str::trim`.
pub fn trim_chars(s: &[char]) -> (out: Vec<char>)
    ensures
        out@ == trim(s@),
{
    let n = s.len();
    let mut i: usize = 0;
    assert(s@.subrange(0, n as int) =~= s@);
    while i < n && char_is_whitespace(s[i])
        invariant
            n == s@.len(),
            i <= n,
            trim_start(s@) == trim_start(s@.subrange(i as int, n as int)),
        decreases n - i,
    {
        assert(s@.subrange(i as int, n as int).drop_first() =~= s@.subrange(i + 1, n as int));
        i = i + 1;
    }
    assert(trim_start(s@) == s@.subrange(i as int, n as int));
    let mut j: usize = n;
    while j > i && char_is_whitespace(s[j - 1])
        invariant
            n == s@.len(),
            i <= j <= n,
            trim(s@) == trim_end(s@.subrange(i as int, j as int)),
        decreases j - i,
    {
        assert(s@.subrange(i as int, j as int).drop_last() =~= s@.subrange(i as int, j - 1));
        j = j - 1;
    }
    copy_range(s, i, j)
}

// ───────────────────────────── splitting ─────────────────────────────

/// Pieces of `s` between occurrences of `sep`, `cur` being the piece
/// gathered so far (`str::split` with a character pattern).
pub open spec fn split_from(s: Seq<char>, sep: char, cur: Seq<char>) -> Seq<Seq<char>>
    decreases s.len(),
{
    if s.len() == 0 {
        seq![cur]
    } else if s[0] == sep {
        seq![cur] + split_from(s.drop_first(), sep, seq![])
    } else {
        split_from(s.drop_first(), sep, cur.push(s[0]))
    }
}

/// `s.split(sep)`: never empty; `""` splits into one empty piece.
pub open spec fn split(s: Seq<char>, sep: char) -> Seq<Seq<char>> {
    split_from(s, sep, seq![])
}

/// `line` without one trailing carriage return.
pub open spec fn strip_cr(line: Seq<char>) -> Seq<char> {
    if line.len() > 0 && line.last() == '\r' {
        line.drop_last()
    } else {
        line
    }
}

/// Lines of `s` after `cur`, as `str::lines` yields them: lines end at
/// `\n` (a `\r` right before it is dropped) and a final line ending is
/// optional.
pub open spec fn lines_from(s: Seq<char>, cur: Seq<char>) -> Seq<Seq<char>>
    decreases s.len(),
{
    if s.len() == 0 {
        if cur.len() == 0 {
            seq![]
        } else {
            seq![cur]
        }
    } else if s[0] == '\n' {
        seq![strip_cr(cur)] + lines_from(s.drop_first(), seq![])
    } else {
        lines_from(s.drop_first(), cur.push(s[0]))
    }
}

/// `str::lines`.
pub open spec fn lines(s: Seq<char>) -> Seq<Seq<char>> {
    lines_from(s, seq![])
}

pub open spec fn views(v: Seq<Vec<char>>) -> Seq<Seq<char>> {
    v.map_values(|x: Vec<char>| x@)
}

/// `str::split` on a character.
pub fn split_chars(s: &[char], sep: char) -> (out: Vec<Vec<char>>)
    ensures
        views(out@) == split(s@, sep),
{
    let n = s.len();
    let mut out: Vec<Vec<char>> = Vec::new();
    let mut cur: Vec<char> = Vec::new();
    let mut i: usize = 0;
    assert(s@.subrange(0, n as int) =~= s@);
    assert(views(out@) =~= Seq::<Seq<char>>::empty());
    assert(cur@ =~= Seq::<char>::empty());
    while i < n
        invariant
            n == s@.len(),
            i <= n,
            split(s@, sep) == views(out@) + split_from(s@.subrange(i as int, n as int), sep, cur@),
        decreases n - i,
    {
        let ghost rest = s@.subrange(i as int, n as int);
        assert(rest.drop_first() =~= s@.subrange(i + 1, n as int));
        assert(rest[0] == s@[i as int]);
        if s[i] == sep {
            let ghost old_out = out@;
            let ghost old_cur = cur@;
            let piece = cur;
            out.push(piece);
            cur = Vec::new();
            assert(views(out@) =~= views(old_out) + seq![old_cur]);
            assert(views(old_out) + split_from(rest, sep, old_cur) == views(old_out) + (seq![old_cur]
                + split_from(rest.drop_first(), sep, seq![])));
            assert(views(old_out) + (seq![old_cur] + split_from(rest.drop_first(), sep, seq![]))
                =~= views(out@) + split_from(rest.drop_first(), sep, seq![]));
        } else {
            cur.push(s[i]);
        }
        i = i + 1;
    }
    let ghost old_out = out@;
    let ghost last = cur@;
    out.push(cur);
    assert(views(out@) =~= views(old_out) + seq![last]);
    out
}

/// `str::lines`.
pub fn lines_of(s: &[char]) -> (out: Vec<Vec<char>>)
    ensures
        views(out@) == lines(s@),
{
    let n = s.len();
    let mut out: Vec<Vec<char>> = Vec::new();
    let mut cur: Vec<char> = Vec::new();
    let mut i: usize = 0;
    assert(s@.subrange(0, n as int) =~= s@);
    assert(views(out@) =~= Seq::<Seq<char>>::empty());
    assert(cur@ =~= Seq::<char>::empty());
    while i < n
        invariant
            n == s@.len(),
            i <= n,
            lines(s@) == views(out@) + lines_from(s@.subrange(i as int, n as int), cur@),
        decreases n - i,
    {
        let ghost rest = s@.subrange(i as int, n as int);
        assert(rest.drop_first() =~= s@.subrange(i + 1, n as int));
        assert(rest[0] == s@[i as int]);
        if s[i] == '\n' {
            let ghost old_out = out@;
            let ghost old_cur = cur@;
            let clen = cur.len();
            let piece = if clen > 0 && cur[clen - 1] == '\r' {
                let p = copy_range(cur.as_slice(), 0, clen - 1);
                assert(p@ =~= old_cur.drop_last());
                p
            } else {
                cur
            };
            assert(piece@ == strip_cr(old_cur));
            out.push(piece);
            cur = Vec::new();
            assert(views(out@) =~= views(old_out) + seq![strip_cr(old_cur)]);
            assert(views(old_out) + (seq![strip_cr(old_cur)] + lines_from(rest.drop_first(), seq![]))
                =~= views(out@) + lines_from(rest.drop_first(), seq![]));
        } else {
            cur.push(s[i]);
        }
        i = i + 1;
    }
    assert(s@.subrange(n as int, n as int) =~= Seq::<char>::empty());
    if cur.len() > 0 {
        let ghost old_out = out@;
        let ghost last = cur@;
        out.push(cur);
        assert(views(out@) =~= views(old_out) + seq![last]);
    } else {
        assert(views(out@) =~= views(out@) + Seq::<Seq<char>>::empty());
    }
    out
}


// ───────────────────────────── searching ─────────────────────────────

/// `s` starts with `p`.
pub open spec fn starts_with(s: Seq<char>, p: Seq<char>) -> bool {
    p.len() <= s.len() && s.subrange(0, p.len() as int) == p
}

/// `p` occurs in `s` at index `i`.
pub open spec fn occurs_at(s: Seq<char>, p: Seq<char>, i: int) -> bool {
    0 <= i && i + p.len() <= s.len() && s.subrange(i, i + p.len()) == p
}

/// `p` occurs in `s` at `i` and at no earlier index.
pub open spec fn first_occurrence_at(s: Seq<char>, p: Seq<char>, i: int) -> bool {
    occurs_at(s, p, i) && forall|j: int| 0 <= j < i ==> !occurs_at(s, p, j)
}

/// `p` occurs in `s` at `i` and at no later index.
pub open spec fn last_occurrence_at(s: Seq<char>, p: Seq<char>, i: int) -> bool {
    occurs_at(s, p, i) && forall|j: int| i < j ==> !occurs_at(s, p, j)
}

/// `str::find`: the index of the first occurrence of `p` in `s`, or -1.
pub open spec fn find_sub(s: Seq<char>, p: Seq<char>) -> int {
    if exists|i: int| occurs_at(s, p, i) {
        choose|i: int| first_occurrence_at(s, p, i)
    } else {
        -1
    }
}

/// `str::rfind`: the index of the last occurrence of `p` in `s`, or -1.
pub open spec fn rfind_sub(s: Seq<char>, p: Seq<char>) -> int {
    if exists|i: int| occurs_at(s, p, i) {
        choose|i: int| last_occurrence_at(s, p, i)
    } else {
        -1
    }
}

/// `s` contains `p`.
pub open spec fn contains_sub(s: Seq<char>, p: Seq<char>) -> bool {
    exists|i: int| occurs_at(s, p, i)
}

/// Whether `p` occurs in `s` at `i`.
pub fn occurs_at_exec(s: &[char], p: &[char], i: usize) -> (r: bool)
    ensures
        r == occurs_at(s@, p@, i as int),
{
    if i > s.len() || p.len() > s.len() - i {
        return false;
    }
    let mut k: usize = 0;
    while k < p.len()
        invariant
            i + p@.len() <= s@.len(),
            s@.len() == s.len(),
            k <= p@.len(),
            forall|j: int| 0 <= j < k ==> s@[i + j] == p@[j],
        decreases p@.len() - k,
    {
        if s[i + k] != p[k] {
            assert(s@.subrange(i as int, i + p@.len())[k as int] != p@[k as int]);
            return false;
        }
        k = k + 1;
    }
    assert(s@.subrange(i as int, i + p@.len()) =~= p@);
    true
}

/// `str::find`.
pub fn find_sub_exec(s: &[char], p: &[char]) -> (r: Option<usize>)
    ensures
        match r {
            Some(i) => find_sub(s@, p@) == i && first_occurrence_at(s@, p@, i as int),
            None => find_sub(s@, p@) == -1 && !contains_sub(s@, p@),
        },
{
    if p.len() > s.len() {
        assert forall|j: int| !occurs_at(s@, p@, j) by {}
        return None;
    }
    let last = s.len() - p.len();
    let mut i: usize = 0;
    loop
        invariant
            last == s@.len() - p@.len(),
            i <= last,
            forall|j: int| 0 <= j < i ==> !occurs_at(s@, p@, j),
        decreases last - i,
    {
        if occurs_at_exec(s, p, i) {
            let ghost k = choose|k: int| first_occurrence_at(s@, p@, k);
            assert(first_occurrence_at(s@, p@, i as int));
            assert(k == i) by {
                if k < i {
                } else if k > i {
                }
            }
            return Some(i);
        }
        if i == last {
            assert forall|j: int| !occurs_at(s@, p@, j) by {
                if 0 <= j && j <= last {
                }
            }
            return None;
        }
        i = i + 1;
    }
}

/// `str::rfind`.
pub fn rfind_sub_exec(s: &[char], p: &[char]) -> (r: Option<usize>)
    ensures
        match r {
            Some(i) => rfind_sub(s@, p@) == i && last_occurrence_at(s@, p@, i as int),
            None => rfind_sub(s@, p@) == -1 && !contains_sub(s@, p@),
        },
{
    if p.len() > s.len() {
        assert forall|j: int| !occurs_at(s@, p@, j) by {}
        return None;
    }
    let mut i: usize = s.len() - p.len();
    loop
        invariant
            i <= s@.len() - p@.len(),
            p@.len() <= s@.len(),
            forall|j: int| i < j ==> !occurs_at(s@, p@, j),
        decreases i,
    {
        if occurs_at_exec(s, p, i) {
            let ghost k = choose|k: int| last_occurrence_at(s@, p@, k);
            assert(last_occurrence_at(s@, p@, i as int));
            assert(k == i) by {
                if k < i {
                } else if k > i {
                }
            }
            return Some(i);
        }
        if i == 0 {
            assert forall|j: int| !occurs_at(s@, p@, j) by {
                if j == 0 {
                }
            }
            return None;
        }
        i = i - 1;
    }
}

/// `s` starts with `p`.
pub fn starts_with_exec(s: &[char], p: &[char]) -> (r: bool)
    ensures
        r == starts_with(s@, p@),
{
    occurs_at_exec(s, p, 0)
}

/// The piece of `s` before the first `sep`, or all of `s`
/// (`s.split(sep).next()`).
pub open spec fn before_char(s: Seq<char>, sep: char) -> Seq<char> {
    split(s, sep)[0]
}

/// Splitting always yields at least one piece.
pub proof fn lemma_split_from_nonempty(s: Seq<char>, sep: char, cur: Seq<char>)
    ensures
        split_from(s, sep, cur).len() >= 1,
    decreases s.len(),
{
    if s.len() > 0 && s[0] != sep {
        lemma_split_from_nonempty(s.drop_first(), sep, cur.push(s[0]));
    }
}


// ───────────────────────────── std text services ─────────────────────────────

/// What `str::to_lowercase` returns for a string: the Unicode lowercase
/// mapping of each character, which takes the Unicode tables to state.
pub uninterp spec fn lowercase(s: Seq<char>) -> Seq<char>;

/// `str::to_lowercase`; the contract names its result and claims nothing
/// more of it.
pub(crate) fn to_lowercase_chars(s: &[char]) -> (out: Vec<char>)
    ensures
        out@ == lowercase(s@),
{
    let owned = string_from(s);
    let lowered = to_lowercase(owned.as_str());
    chars_of(lowered.as_str())
}

/// `str::to_lowercase`.
#[verifier::external_body]
fn to_lowercase(s: &str) -> (out: String)
    ensures
        out@ == lowercase(s@),
{
    s.to_lowercase()
}

/// What `format!("{:?}", s)` gives for a string slice: the text in double
/// quotes with the escapes of `char::escape_debug`.
pub uninterp spec fn debug_quoted(s: Seq<char>) -> Seq<char>;

/// `format!("{:?}", s)` for a string slice; the contract names its result.
#[verifier::external_body]
fn debug_str(s: &str) -> (out: String)
    ensures
        out@ == debug_quoted(s@),
{
    format!("{:?}", s)
}

/// `format!("{:?}", s)` for the text `s`.
pub(crate) fn debug_chars(s: &[char]) -> (out: Vec<char>)
    ensures
        out@ == debug_quoted(s@),
{
    let owned = string_from(s);
    let quoted = debug_str(owned.as_str());
    chars_of(quoted.as_str())
}

/// `lit` followed by `rest`, as a string.
pub fn concat_lit(lit: &str, rest: &[char]) -> (out: String)
    ensures
        out@ == lit@ + rest@,
{
    let mut v = chars_of(lit);
    extend_chars(&mut v, rest);
    string_from(v.as_slice())
}


/// `prefix`, `middle` and `suffix` in a row, as a string
/// (`format!("{prefix}{middle}{suffix}")`).
pub fn surround(prefix: &str, middle: &str, suffix: &str) -> (out: String)
    ensures
        out@ == prefix@ + middle@ + suffix@,
{
    let mut v = chars_of(prefix);
    extend_chars(&mut v, chars_of(middle).as_slice());
    extend_chars(&mut v, chars_of(suffix).as_slice());
    string_from(v.as_slice())
}

/// The parts joined with `sep` between them (`[String]::join`).
pub open spec fn join(parts: Seq<Seq<char>>, sep: Seq<char>) -> Seq<char>
    decreases parts.len(),
{
    if parts.len() == 0 {
        seq![]
    } else if parts.len() == 1 {
        parts[0]
    } else {
        join(parts.drop_last(), sep) + sep + parts.last()
    }
}

/// `[String]::join`.
pub fn join_exec(parts: &[Vec<char>], sep: &[char]) -> (out: Vec<char>)
    ensures
        out@ == join(views(parts@), sep@),
{
    let mut out: Vec<char> = Vec::new();
    let mut i: usize = 0;
    while i < parts.len()
        invariant
            i <= parts@.len(),
            out@ == join(views(parts@).take(i as int), sep@),
        decreases parts@.len() - i,
    {
        let ghost v = views(parts@).take(i + 1);
        assert(v.drop_last() =~= views(parts@).take(i as int));
        assert(v.last() == parts@[i as int]@);
        if i > 0 {
            extend_chars(&mut out, sep);
        } else {
            assert(v =~= seq![parts@[0]@]);
        }
        extend_chars(&mut out, parts[i].as_slice());
        i = i + 1;
    }
    assert(views(parts@).take(i as int) =~= views(parts@));
    out
}

/// What `String::from_utf8_lossy` makes of `bytes`: the decoded text, each
/// invalid sequence replaced by U+FFFD.
pub uninterp spec fn utf8_lossy(bytes: Seq<u8>) -> Seq<char>;

/// `String::from_utf8_lossy`: valid UTF-8 decodes unchanged; of other input
/// the contract names the result only.
#[verifier::external_body]
fn from_utf8_lossy(bytes: &[u8]) -> (out: String)
    ensures
        out@ == utf8_lossy(bytes@),
        vstd::utf8::valid_utf8(bytes@) ==> out@ == vstd::utf8::decode_utf8(bytes@),
{
    String::from_utf8_lossy(bytes).into_owned()
}

/// The text of `bytes`, decoded as `String::from_utf8_lossy` does.
pub fn lossy_chars(bytes: &[u8]) -> (out: Vec<char>)
    ensures
        out@ == utf8_lossy(bytes@),
        vstd::utf8::valid_utf8(bytes@) ==> out@ == vstd::utf8::decode_utf8(bytes@),
{
    let s = from_utf8_lossy(bytes);
    chars_of(s.as_str())
}

// ───────────────────────────── byte offsets ─────────────────────────────

/// The number of bytes of `c` in UTF-8.
pub open spec fn utf8_len(c: char) -> nat {
    let u = c as u32;
    if u < 0x80 {
        1
    } else if u < 0x800 {
        2
    } else if u < 0x10000 {
        3
    } else {
        4
    }
}

/// The number of bytes of `s` in UTF-8.
pub open spec fn byte_len(s: Seq<char>) -> nat
    decreases s.len(),
{
    if s.len() == 0 {
        0
    } else {
        byte_len(s.drop_last()) + utf8_len(s.last())
    }
}

/// Byte offset `b` is a character boundary of `s`: it ends a prefix.
pub open spec fn is_boundary(s: Seq<char>, b: int) -> bool {
    exists|i: int| 0 <= i <= s.len() && byte_len(#[trigger] s.take(i)) == b
}

/// The number of characters before byte offset `b`, for a boundary.
pub open spec fn char_index(s: Seq<char>, b: int) -> int {
    choose|i: int| 0 <= i <= s.len() && byte_len(#[trigger] s.take(i)) == b
}

/// `str::get(a..b)`: the characters between byte offsets `a` and `b`,
/// when both are boundaries and `a <= b`.
pub open spec fn str_get(s: Seq<char>, a: int, b: int) -> Option<Seq<char>> {
    if a <= b && is_boundary(s, a) && is_boundary(s, b) {
        Some(s.subrange(char_index(s, a), char_index(s, b)))
    } else {
        None
    }
}

/// Longer prefixes have more bytes.
pub proof fn lemma_byte_len_increases(s: Seq<char>, i: int, k: int)
    requires
        0 <= i < k <= s.len(),
    ensures
        byte_len(s.take(i)) < byte_len(s.take(k)),
    decreases k - i,
{
    assert(s.take(k).drop_last() =~= s.take(k - 1));
    if i < k - 1 {
        lemma_byte_len_increases(s, i, k - 1);
    }
}

/// Only one prefix has a given number of bytes.
pub proof fn lemma_char_index_unique(s: Seq<char>, i: int, b: int)
    requires
        0 <= i <= s.len(),
        byte_len(s.take(i)) == b,
    ensures
        is_boundary(s, b),
        char_index(s, b) == i,
{
    let j = char_index(s, b);
    if j < i {
        lemma_byte_len_increases(s, j, i);
    } else if i < j {
        lemma_byte_len_increases(s, i, j);
    }
}

fn utf8_len_exec(c: char) -> (n: usize)
    ensures
        n == utf8_len(c),
{
    let u = c as u32;
    if u < 0x80 {
        1
    } else if u < 0x800 {
        2
    } else if u < 0x10000 {
        3
    } else {
        4
    }
}

/// `str::get(a..b)` on the characters of a string.
pub fn str_get_exec(s: &[char], a: usize, b: usize) -> (r: Option<Vec<char>>)
    ensures
        match str_get(s@, a as int, b as int) {
            Some(t) => r matches Some(v) && v@ == t,
            None => r is None,
        },
{
    if a > b {
        return None;
    }
    let mut ia: Option<usize> = None;
    let mut ib: Option<usize> = None;
    let mut off: u128 = 0;
    let mut i: usize = 0;
    assert(s@.take(0) =~= Seq::<char>::empty());
    loop
        invariant
            i <= s@.len(),
            off == byte_len(s@.take(i as int)),
            off <= b + 4,
            a <= b,
            match ia {
                Some(x) => x <= i && byte_len(s@.take(x as int)) == a,
                None => forall|j: int| 0 <= j < i ==> byte_len(#[trigger] s@.take(j)) != a,
            },
            match ib {
                Some(x) => x <= i && byte_len(s@.take(x as int)) == b,
                None => forall|j: int| 0 <= j < i ==> byte_len(#[trigger] s@.take(j)) != b,
            },
        ensures
            i <= s@.len(),
            off == byte_len(s@.take(i as int)),
            i == s@.len() || off >= b,
            match ia {
                Some(x) => x <= i && byte_len(s@.take(x as int)) == a,
                None => forall|j: int| 0 <= j <= i ==> byte_len(#[trigger] s@.take(j)) != a,
            },
            match ib {
                Some(x) => x <= i && byte_len(s@.take(x as int)) == b,
                None => forall|j: int| 0 <= j <= i ==> byte_len(#[trigger] s@.take(j)) != b,
            },
        decreases s@.len() - i,
    {
        if ia.is_none() && off == a as u128 {
            ia = Some(i);
        }
        if ib.is_none() && off == b as u128 {
            ib = Some(i);
        }
        if i == s.len() || off >= b as u128 {
            break;
        }
        let n = utf8_len_exec(s[i]);
        proof {
            assert(s@.take(i + 1).drop_last() =~= s@.take(i as int));
            assert(s@.take(i + 1).last() == s@[i as int]);
        }
        off = off + n as u128;
        i = i + 1;
    }
    proof {
        if ia is None {
            assert forall|j: int| 0 <= j <= s@.len() implies byte_len(#[trigger] s@.take(j)) != a by {
                if j > i {
                    lemma_byte_len_increases(s@, i as int, j);
                }
            }
        }
        if ib is None {
            assert forall|j: int| 0 <= j <= s@.len() implies byte_len(#[trigger] s@.take(j)) != b by {
                if j > i {
                    lemma_byte_len_increases(s@, i as int, j);
                }
            }
        }
    }
    match (ia, ib) {
        (Some(x), Some(y)) => {
            proof {
                lemma_char_index_unique(s@, x as int, a as int);
                lemma_char_index_unique(s@, y as int, b as int);
                if y < x {
                    lemma_byte_len_increases(s@, y as int, x as int);
                }
            }
            Some(copy_range(s, x, y))
        },
        _ => None,
    }
}

} // verus!
