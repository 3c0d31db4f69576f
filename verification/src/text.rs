//! Text primitives shared by the formatting and parsing rules of the library:
//! building strings, substring search, decimal numbers, and the byte-offset
//! semantics of `str::find` / `str::get`.
use vstd::prelude::*;
use vstd::utf8::*;
use vstd::string::*;

verus! {

broadcast use vstd::utf8::encode_utf8_valid_utf8, vstd::utf8::encode_utf8_decode_utf8;

// ---------------------------------------------------------------------------
// Building strings
// ---------------------------------------------------------------------------

/// `String::push`: appends one character at the end of the string.
#[verifier::external_body]
pub(crate) fn push_char(s: &mut String, c: char)
    ensures
        final(s)@ == old(s)@.push(c),
{
    s.push(c);
}

/// Appends every character of `src` to `dst`.
pub fn push_str(dst: &mut String, src: &str)
    ensures
        final(dst)@ == old(dst)@ + src@,
{
    let ghost start = dst@;
    for c in it: src.chars()
        invariant
            it.seq() == src@,
            dst@ == start + it.seq().take(it.index()),
    {
        push_char(dst, c);
        assert(it.seq().take(it.index() + 1) =~= it.seq().take(it.index()).push(c));
    }
    assert(src@.take(src@.len() as int) =~= src@);
}

/// Appends every character of `src` to `dst`.
pub fn push_chars(dst: &mut String, src: &Vec<char>)
    ensures
        final(dst)@ == old(dst)@ + src@,
{
    let ghost start = dst@;
    let mut i: usize = 0;
    while i < src.len()
        invariant
            i <= src.len(),
            dst@ == start + src@.take(i as int),
        decreases src.len() - i,
    {
        push_char(dst, src[i]);
        assert(src@.take(i + 1) =~= src@.take(i as int).push(src@[i as int]));
        i += 1;
    }
    assert(src@.take(src.len() as int) =~= src@);
}

/// A `String` holding exactly the given characters.
pub fn string_of(src: &Vec<char>) -> (r: String)
    ensures
        r@ == src@,
{
    let mut r = String::new();
    push_chars(&mut r, src);
    assert(Seq::<char>::empty() + src@ =~= src@);
    r
}

/// A fresh `String` holding exactly the characters of `s`.
pub fn owned(s: &str) -> (r: String)
    ensures
        r@ == s@,
{
    s.to_owned()
}

/// Concatenation of two string slices.
pub fn concat2(a: &str, b: &str) -> (r: String)
    ensures
        r@ == a@ + b@,
{
    let mut r = owned(a);
    push_str(&mut r, b);
    r
}

/// Concatenation of three string slices.
pub fn concat3(a: &str, b: &str, c: &str) -> (r: String)
    ensures
        r@ == a@ + b@ + c@,
{
    let mut r = owned(a);
    push_str(&mut r, b);
    push_str(&mut r, c);
    r
}

/// The characters of a string slice, in order.
pub fn chars_of(s: &str) -> (r: Vec<char>)
    ensures
        r@ == s@,
{
    let mut out: Vec<char> = Vec::new();
    for c in it: s.chars()
        invariant
            out@ == it.seq().take(it.index()),
            it.seq() == s@,
    {
        out.push(c);
        assert(it.seq().take(it.index() + 1) =~= it.seq().take(it.index()).push(c));
    }
    assert(s@.take(s@.len() as int) =~= s@);
    out
}

/// Character-wise equality of two string slices.
pub fn str_eq(a: &str, b: &str) -> (r: bool)
    ensures
        r == (a@ == b@),
{
    let x = chars_of(a);
    let y = chars_of(b);
    if x.len() != y.len() {
        return false;
    }
    let mut i: usize = 0;
    while i < x.len()
        invariant
            x@ == a@,
            y@ == b@,
            x.len() == y.len(),
            i <= x.len(),
            forall|j: int| 0 <= j < i ==> x@[j] == y@[j],
        decreases x.len() - i,
    {
        if x[i] != y[i] {
            return false;
        }
        i += 1;
    }
    assert(x@ =~= y@);
    true
}

// ---------------------------------------------------------------------------
// Substring search
// ---------------------------------------------------------------------------

/// `needle` occurs in `hay` at position `i`.
pub open spec fn occurs_at(hay: Seq<char>, needle: Seq<char>, i: int) -> bool {
    0 <= i && i + needle.len() <= hay.len() && hay.subrange(i, i + needle.len()) == needle
}

/// `needle` occurs somewhere in `hay` (what `str::contains` answers).
pub open spec fn has_sub(hay: Seq<char>, needle: Seq<char>) -> bool {
    exists|i: int| occurs_at(hay, needle, i)
}

fn matches_at(hay: &Vec<char>, needle: &Vec<char>, i: usize) -> (r: bool)
    requires
        i + needle.len() <= hay.len(),
    ensures
        r == occurs_at(hay@, needle@, i as int),
{
    let mut k: usize = 0;
    while k < needle.len()
        invariant
            i + needle.len() <= hay.len(),
            k <= needle.len(),
            forall|j: int| 0 <= j < k ==> hay@[i + j] == needle@[j],
        decreases needle.len() - k,
    {
        if hay[i + k] != needle[k] {
            assert(hay@.subrange(i as int, i + needle.len())[k as int] != needle@[k as int]);
            return false;
        }
        k += 1;
    }
    assert(hay@.subrange(i as int, i + needle.len()) =~= needle@);
    true
}

/// Whether `needle` occurs in the character sequence `hay`.
pub fn contains_chars(hay: &Vec<char>, needle: &str) -> (r: bool)
    ensures
        r == has_sub(hay@, needle@),
{
    let n = chars_of(needle);
    if n.len() == 0 {
        assert(hay@.subrange(0, 0) =~= needle@);
        assert(occurs_at(hay@, needle@, 0));
        return true;
    }
    if n.len() > hay.len() {
        assert forall|i: int| !occurs_at(hay@, needle@, i) by {}
        return false;
    }
    let bound = hay.len() - n.len() + 1;
    let mut i: usize = 0;
    while i < bound
        invariant
            n@ == needle@,
            bound == hay.len() - n.len() + 1,
            1 <= n.len() <= hay.len(),
            forall|j: int| 0 <= j < i ==> !occurs_at(hay@, needle@, j),
        decreases bound - i,
    {
        if matches_at(hay, &n, i) {
            return true;
        }
        i += 1;
    }
    assert forall|j: int| !occurs_at(hay@, needle@, j) by {
        if 0 <= j && j < i {
        }
    }
    false
}

// ---------------------------------------------------------------------------
// Splitting on a separator
// ---------------------------------------------------------------------------

/// `i` is the leftmost position where `sep` occurs in `s`.
pub open spec fn is_first_occurrence(s: Seq<char>, sep: Seq<char>, i: int) -> bool {
    occurs_at(s, sep, i) && forall|j: int| 0 <= j < i ==> !occurs_at(s, sep, j)
}

/// The leftmost position where `sep` occurs in `s`, if any.
pub open spec fn first_occurrence(s: Seq<char>, sep: Seq<char>) -> Option<int> {
    if exists|i: int| is_first_occurrence(s, sep, i) {
        Some(choose|i: int| is_first_occurrence(s, sep, i))
    } else {
        None
    }
}

/// The pieces of `s` between the occurrences of a non-empty `sep`, found
/// left to right without overlap: what `str::split` yields.
pub open spec fn split_spec(s: Seq<char>, sep: Seq<char>) -> Seq<Seq<char>>
    decreases s.len(),
{
    if sep.len() == 0 {
        seq![s]
    } else {
        match first_occurrence(s, sep) {
            Some(i) => seq![s.take(i)] + split_spec(s.skip(i + sep.len()), sep),
            None => seq![s],
        }
    }
}

/// The contents of a list of character vectors.
pub open spec fn piece_views(v: Seq<Vec<char>>) -> Seq<Seq<char>> {
    v.map_values(|p: Vec<char>| p@)
}

proof fn lemma_first_occurrence_at(s: Seq<char>, sep: Seq<char>, k: int)
    requires
        is_first_occurrence(s, sep, k),
    ensures
        first_occurrence(s, sep) == Some(k),
{
    let c = choose|i: int| is_first_occurrence(s, sep, i);
    assert(is_first_occurrence(s, sep, c));
    if c < k {
        assert(!occurs_at(s, sep, c));
    } else if c > k {
        assert(!occurs_at(s, sep, k));
    }
}

proof fn lemma_occurs_in_suffix(s: Seq<char>, sep: Seq<char>, seg: int, k: int)
    requires
        0 <= seg <= s.len(),
        0 <= k,
    ensures
        occurs_at(s.skip(seg), sep, k) == occurs_at(s, sep, seg + k),
{
    if k + sep.len() <= s.len() - seg {
        assert(s.skip(seg).subrange(k, k + sep.len()) =~= s.subrange(seg + k, seg + k + sep.len()));
    }
}

/// An occurrence of `sep` in `s` means there is a leftmost one.
proof fn lemma_first_exists(s: Seq<char>, sep: Seq<char>, i: int)
    requires
        occurs_at(s, sep, i),
    ensures
        exists|k: int| is_first_occurrence(s, sep, k),
    decreases i,
{
    if exists|j: int| 0 <= j < i && occurs_at(s, sep, j) {
        let j = choose|j: int| 0 <= j < i && occurs_at(s, sep, j);
        lemma_first_exists(s, sep, j);
    } else {
        assert(is_first_occurrence(s, sep, i));
    }
}

/// No piece of a split holds the separator.
pub proof fn lemma_split_pieces_hold_no_separator(s: Seq<char>, sep: Seq<char>)
    requires
        sep.len() > 0,
    ensures
        forall|k: int|
            0 <= k < split_spec(s, sep).len() ==> !has_sub(#[trigger] split_spec(s, sep)[k], sep),
    decreases s.len(),
{
    let parts = split_spec(s, sep);
    match first_occurrence(s, sep) {
        Some(i) => {
            assert(is_first_occurrence(s, sep, i));
            let rest = s.skip(i + sep.len());
            lemma_split_pieces_hold_no_separator(rest, sep);
            assert forall|j: int| !occurs_at(s.take(i), sep, j) by {
                if occurs_at(s.take(i), sep, j) {
                    assert(s.take(i).subrange(j, j + sep.len()) =~= s.subrange(j, j + sep.len()));
                    assert(occurs_at(s, sep, j));
                }
            }
            assert forall|k: int| 0 <= k < parts.len() implies !has_sub(#[trigger] parts[k], sep) by {
                if k > 0 {
                    assert(parts[k] == split_spec(rest, sep)[k - 1]);
                }
            }
        }
        None => {
            if has_sub(s, sep) {
                let i = choose|i: int| occurs_at(s, sep, i);
                lemma_first_exists(s, sep, i);
            }
        }
    }
}

/// Two pieces without ", " joined by ", " split back into those pieces.
pub proof fn lemma_split_joined_pair(a: Seq<char>, b: Seq<char>)
    requires
        !has_sub(a, ", "@),
        !has_sub(b, ", "@),
    ensures
        split_spec(a + ", "@ + b, ", "@) == seq![a, b],
{
    reveal_strlit(", ");
    let sep = ", "@;
    let s = a + sep + b;
    let n = a.len() as int;
    assert(s.subrange(n, n + 2) =~= sep);
    assert forall|j: int| 0 <= j < n implies !occurs_at(s, sep, j) by {
        if occurs_at(s, sep, j) {
            if j + 2 <= n {
                assert(s.subrange(j, j + 2) =~= a.subrange(j, j + 2));
                assert(occurs_at(a, sep, j));
            } else {
                assert(s.subrange(j, j + 2)[1] == s[n]);
            }
        }
    }
    lemma_first_occurrence_at(s, sep, n);
    assert(s.take(n) =~= a);
    assert(s.skip(n + 2) =~= b);
    if let Some(k) = first_occurrence(b, sep) {
        assert(is_first_occurrence(b, sep, k));
    }
    assert(split_spec(b, sep) == seq![b]);
    assert(split_spec(s, sep) =~= seq![a, b]);
}

/// Splits the characters `s` on every occurrence of `sep`, as `str::split`.
pub fn split_chars(s: &Vec<char>, sep: &str) -> (r: Vec<Vec<char>>)
    requires
        sep@.len() > 0,
    ensures
        piece_views(r@) == split_spec(s@, sep@),
{
    let n = chars_of(sep);
    let mut parts: Vec<Vec<char>> = Vec::new();
    let mut cur: Vec<char> = Vec::new();
    let mut seg: usize = 0;
    let mut i: usize = 0;
    assert(s@.skip(0) =~= s@);
    assert(piece_views(parts@) + split_spec(s@, n@) =~= split_spec(s@, n@));
    while i < s.len()
        invariant
            n@ == sep@,
            n@.len() > 0,
            seg <= i <= s.len(),
            cur@ == s@.subrange(seg as int, i as int),
            forall|j: int| seg <= j < i ==> !occurs_at(s@, n@, j),
            split_spec(s@, n@) == piece_views(parts@) + split_spec(s@.skip(seg as int), n@),
        decreases s.len() - i,
    {
        if n.len() <= s.len() - i && matches_at(s, &n, i) {
            proof {
                let t = s@.skip(seg as int);
                let k = i - seg;
                lemma_occurs_in_suffix(s@, n@, seg as int, k);
                assert forall|j: int| 0 <= j < k implies !occurs_at(t, n@, j) by {
                    lemma_occurs_in_suffix(s@, n@, seg as int, j);
                }
                lemma_first_occurrence_at(t, n@, k);
                assert(t.take(k) =~= cur@);
                assert(t.skip(k + n@.len()) =~= s@.skip(i + n@.len()));
                assert(split_spec(t, n@) == seq![t.take(k)] + split_spec(t.skip(k + n@.len()), n@));
            }
            let piece = cur;
            parts.push(piece);
            assert(piece_views(parts@) =~= piece_views(parts@.drop_last()).push(piece@));
            cur = Vec::new();
            i = i + n.len();
            seg = i;
            assert(cur@ =~= s@.subrange(seg as int, i as int));
        } else {
            cur.push(s[i]);
            i += 1;
            assert(cur@ =~= s@.subrange(seg as int, i as int));
        }
    }
    proof {
        let t = s@.skip(seg as int);
        assert forall|j: int| !is_first_occurrence(t, n@, j) by {
            if 0 <= j {
                lemma_occurs_in_suffix(s@, n@, seg as int, j);
            }
        }
        assert(t =~= cur@);
        assert(split_spec(t, n@) == seq![t]);
    }
    let last = cur;
    parts.push(last);
    assert(piece_views(parts@) =~= piece_views(parts@.drop_last()).push(last@));
    parts
}

// ---------------------------------------------------------------------------
// Decimal numbers
// ---------------------------------------------------------------------------

/// The ASCII digit for `d` (0..=9).
pub open spec fn digit_char(d: nat) -> char {
    if d == 0 { '0' }
    else if d == 1 { '1' }
    else if d == 2 { '2' }
    else if d == 3 { '3' }
    else if d == 4 { '4' }
    else if d == 5 { '5' }
    else if d == 6 { '6' }
    else if d == 7 { '7' }
    else if d == 8 { '8' }
    else { '9' }
}

/// The value of an ASCII digit, if `c` is one.
pub open spec fn digit_value(c: char) -> Option<nat> {
    if c == '0' { Some(0) }
    else if c == '1' { Some(1) }
    else if c == '2' { Some(2) }
    else if c == '3' { Some(3) }
    else if c == '4' { Some(4) }
    else if c == '5' { Some(5) }
    else if c == '6' { Some(6) }
    else if c == '7' { Some(7) }
    else if c == '8' { Some(8) }
    else if c == '9' { Some(9) }
    else { None }
}

/// The shortest decimal representation of `n`, as `{}` prints it.
pub open spec fn decimal(n: nat) -> Seq<char>
    decreases n,
{
    if n < 10 {
        seq![digit_char(n)]
    } else {
        decimal(n / 10).push(digit_char(n % 10))
    }
}

/// Decimal representation of a signed integer, with a leading '-' when negative.
pub open spec fn signed_decimal(n: int) -> Seq<char> {
    if n < 0 {
        seq!['-'] + decimal((-n) as nat)
    } else {
        decimal(n as nat)
    }
}

/// Two-digit zero-padded decimal representation, as `{:02}` prints it.
pub open spec fn decimal_pad2(n: nat) -> Seq<char> {
    if n < 10 {
        seq!['0', digit_char(n)]
    } else {
        decimal(n)
    }
}

fn digit(d: u32) -> (c: char)
    requires
        d < 10,
    ensures
        c == digit_char(d as nat),
{
    if d == 0 { '0' }
    else if d == 1 { '1' }
    else if d == 2 { '2' }
    else if d == 3 { '3' }
    else if d == 4 { '4' }
    else if d == 5 { '5' }
    else if d == 6 { '6' }
    else if d == 7 { '7' }
    else if d == 8 { '8' }
    else { '9' }
}

/// Appends the decimal representation of `n`.
pub fn push_u32(s: &mut String, n: u32)
    ensures
        final(s)@ == old(s)@ + decimal(n as nat),
    decreases n,
{
    if n >= 10 {
        push_u32(s, n / 10);
    }
    push_char(s, digit(n % 10));
    proof {
        if n >= 10 {
            assert(decimal(n as nat) == decimal((n / 10) as nat).push(digit_char((n % 10) as nat)));
        } else {
            assert(decimal(n as nat) == seq![digit_char(n as nat)]);
        }
    }
}

/// Appends the decimal representation of `n`, with a leading '-' when negative.
pub fn push_i32(s: &mut String, n: i32)
    ensures
        final(s)@ == old(s)@ + signed_decimal(n as int),
{
    if n < 0 {
        push_char(s, '-');
        let m: u32 = (0i64 - n as i64) as u32;
        push_u32(s, m);
        assert(old(s)@.push('-') + decimal(m as nat) =~= old(s)@ + (seq!['-'] + decimal(m as nat)));
    } else {
        push_u32(s, n as u32);
    }
}

/// Appends `n` zero-padded to two digits.
pub fn push_u32_pad2(s: &mut String, n: u32)
    ensures
        final(s)@ == old(s)@ + decimal_pad2(n as nat),
{
    if n < 10 {
        push_char(s, '0');
        push_char(s, digit(n));
        assert(old(s)@.push('0').push(digit_char(n as nat)) =~= old(s)@ + seq!['0', digit_char(n as nat)]);
    } else {
        push_u32(s, n);
    }
}

/// The decimal text of `n`.
pub fn u32_text(n: u32) -> (r: String)
    ensures
        r@ == decimal(n as nat),
{
    let mut s = String::new();
    push_u32(&mut s, n);
    assert(Seq::<char>::empty() + decimal(n as nat) =~= decimal(n as nat));
    s
}

/// The decimal text of `n`, with a leading '-' when negative.
pub fn i32_text(n: i32) -> (r: String)
    ensures
        r@ == signed_decimal(n as int),
{
    let mut s = String::new();
    push_i32(&mut s, n);
    assert(Seq::<char>::empty() + signed_decimal(n as int) =~= signed_decimal(n as int));
    s
}

/// All characters of `s` are ASCII digits.
pub open spec fn all_digits(s: Seq<char>) -> bool {
    forall|i: int| 0 <= i < s.len() ==> (#[trigger] digit_value(s[i])) is Some
}

/// The number that a non-empty run of ASCII digits denotes.
pub open spec fn digits_value(s: Seq<char>) -> nat
    decreases s.len(),
{
    if s.len() == 0 {
        0
    } else {
        digits_value(s.drop_last()) * 10 + digit_value(s.last()).unwrap_or(0)
    }
}

/// What `str::parse::<u32>` gives: an optional '+' followed by one or more
/// ASCII digits whose value fits in a `u32`; anything else is an error.
pub open spec fn parse_u32_spec(s: Seq<char>) -> Option<nat> {
    let body = if s.len() > 0 && s[0] == '+' { s.drop_first() } else { s };
    if body.len() == 0 || !all_digits(body) {
        None
    } else if digits_value(body) > u32::MAX {
        None
    } else {
        Some(digits_value(body))
    }
}

fn digit_of(c: char) -> (r: Option<u32>)
    ensures
        r matches Some(v) ==> digit_value(c) == Some(v as nat) && v < 10,
        r is None ==> digit_value(c) is None,
{
    if c == '0' { Some(0) }
    else if c == '1' { Some(1) }
    else if c == '2' { Some(2) }
    else if c == '3' { Some(3) }
    else if c == '4' { Some(4) }
    else if c == '5' { Some(5) }
    else if c == '6' { Some(6) }
    else if c == '7' { Some(7) }
    else if c == '8' { Some(8) }
    else if c == '9' { Some(9) }
    else { None }
}

proof fn lemma_digits_value_monotone(s: Seq<char>, k: int)
    requires
        0 <= k <= s.len(),
    ensures
        digits_value(s.take(k)) <= digits_value(s),
    decreases s.len(),
{
    if k < s.len() {
        assert(s.drop_last().take(k) =~= s.take(k));
        lemma_digits_value_monotone(s.drop_last(), k);
    } else {
        assert(s.take(k) =~= s);
    }
}

/// Parses a decimal `u32` the way `str::parse::<u32>` does.
pub fn parse_u32(s: &str) -> (r: Option<u32>)
    ensures
        r matches Some(v) ==> parse_u32_spec(s@) == Some(v as nat),
        r is None ==> parse_u32_spec(s@) is None,
{
    let cs = chars_of(s);
    let start: usize = if cs.len() > 0 && cs[0] == '+' { 1 } else { 0 };
    let ghost body = if s@.len() > 0 && s@[0] == '+' { s@.drop_first() } else { s@ };
    assert(body =~= cs@.subrange(start as int, cs@.len() as int));
    if start >= cs.len() {
        return None;
    }
    let mut value: u32 = 0;
    let mut i: usize = start;
    while i < cs.len()
        invariant
            cs@ == s@,
            start <= i <= cs.len(),
            start < cs.len(),
            body =~= cs@.subrange(start as int, cs@.len() as int),
            body == (if s@.len() > 0 && s@[0] == '+' { s@.drop_first() } else { s@ }),
            forall|j: int| 0 <= j < i - start ==> (#[trigger] digit_value(body[j])) is Some,
            value as nat == digits_value(body.take(i - start)),
        decreases cs.len() - i,
    {
        let ghost k = i - start;
        assert(body.take(k + 1).drop_last() =~= body.take(k));
        assert(body.take(k + 1).last() == body[k]);
        assert(body[k] == cs@[i as int]);
        match digit_of(cs[i]) {
            None => {
                assert(digit_value(body[k]) is None);
                assert(!all_digits(body));
                return None;
            }
            Some(d) => {
                if value > 429496729 || (value == 429496729 && d > 5) {
                    proof {
                        assert(digit_value(body.take(k + 1).last()) == Some(d as nat));
                        assert(digits_value(body.take(k + 1)) == digits_value(body.take(k)) * 10 + d);
                        assert(digits_value(body.take(k + 1)) > u32::MAX);
                        lemma_digits_value_monotone(body, k + 1);
                        if all_digits(body) {
                        }
                    }
                    return None;
                }
                value = value * 10 + d;
                i += 1;
            }
        }
    }
    assert(body.take(body.len() as int) =~= body);
    assert(all_digits(body));
    Some(value)
}

// ---------------------------------------------------------------------------
// Byte offsets: the semantics of `str::find` and `str::get`
// ---------------------------------------------------------------------------

/// `i` is the first position of byte `x` in `b`.
pub open spec fn is_first_index(b: Seq<u8>, x: u8, i: int) -> bool {
    0 <= i < b.len() && b[i] == x && forall|j: int| 0 <= j < i ==> b[j] != x
}

/// The first position of byte `x` in `b`, if there is one. For an ASCII
/// character `x` this is the byte index that `str::find` reports.
pub open spec fn first_index(b: Seq<u8>, x: u8) -> Option<int> {
    if exists|i: int| is_first_index(b, x, i) {
        Some(choose|i: int| is_first_index(b, x, i))
    } else {
        None
    }
}

/// What `str::get(start..end)` returns on a string with UTF-8 bytes `b`:
/// the characters between the two byte offsets, when both lie on character
/// boundaries and in order; nothing otherwise.
pub open spec fn str_get(b: Seq<u8>, start: int, end: int) -> Option<Seq<char>> {
    if 0 <= start <= end <= b.len() && is_char_boundary(b, start) && is_char_boundary(b, end) {
        Some(decode_utf8(b.subrange(start, end)))
    } else {
        None
    }
}

/// The byte index of the first occurrence of byte `x` in `s`.
pub fn find_byte(s: &str, x: u8) -> (r: Option<usize>)
    ensures
        r matches Some(i) ==> first_index(s.spec_bytes(), x) == Some(i as int),
        r is None ==> first_index(s.spec_bytes(), x) is None,
        s.spec_bytes().len() <= usize::MAX,
{
    let b = s.as_bytes();
    let mut i: usize = 0;
    while i < b.len()
        invariant
            b@ == s.spec_bytes(),
            i <= b.len(),
            forall|j: int| 0 <= j < i ==> b@[j] != x,
        decreases b.len() - i,
    {
        if b[i] == x {
            assert(is_first_index(b@, x, i as int));
            assert forall|k: int| is_first_index(b@, x, k) implies k == i by {
                if k < i {
                } else if k > i {
                    assert(b@[i as int] != x);
                }
            }
            return Some(i);
        }
        i += 1;
    }
    assert(!exists|k: int| is_first_index(b@, x, k));
    None
}

proof fn lemma_boundary_in_prefix(b: Seq<u8>, end: int, k: int)
    requires
        valid_utf8(b),
        0 <= k <= end <= b.len(),
        is_char_boundary(b, k),
        is_char_boundary(b, end),
    ensures
        valid_utf8(b.subrange(0, end)),
        is_char_boundary(b.subrange(0, end), k),
{
    valid_utf8_split(b, end);
    let h = b.subrange(0, end);
    is_char_boundary_start_end_of_seq(h);
    if 0 < k < end {
        is_char_boundary_iff_not_is_continuation_byte(b, k);
        is_char_boundary_iff_not_is_continuation_byte(h, k);
    }
}

/// `str::get(start..end)`: the slice between two byte offsets, if both lie
/// on character boundaries and in order.
pub fn get_range(s: &str, start: usize, end: usize) -> (r: Option<&str>)
    ensures
        r matches Some(t) ==> str_get(s.spec_bytes(), start as int, end as int) == Some(t@),
        r is None ==> str_get(s.spec_bytes(), start as int, end as int) is None,
{
    proof {
        encode_utf8_valid_utf8(s@);
    }
    let len = s.as_bytes().len();
    if start <= end && end <= len && s.is_char_boundary(start) && s.is_char_boundary(end) {
        proof {
            lemma_boundary_in_prefix(s.spec_bytes(), end as int, start as int);
        }
        let (head, _) = s.split_at(end);
        let (_, mid) = head.split_at(start);
        proof {
            assert(mid.spec_bytes() =~= s.spec_bytes().subrange(start as int, end as int));
            encode_utf8_decode_utf8(mid@);
        }
        Some(mid)
    } else {
        None
    }
}

/// Strict byte-wise lexicographic order: the order of `str`.
pub open spec fn bytes_lt(a: Seq<u8>, b: Seq<u8>) -> bool
    decreases a.len(),
{
    if a.len() == 0 {
        b.len() > 0
    } else if b.len() == 0 {
        false
    } else if a[0] != b[0] {
        a[0] < b[0]
    } else {
        bytes_lt(a.drop_first(), b.drop_first())
    }
}

/// `a < b` on string slices (byte-wise lexicographic).
pub fn str_lt(a: &str, b: &str) -> (r: bool)
    ensures
        r == bytes_lt(a.spec_bytes(), b.spec_bytes()),
{
    let x = a.as_bytes();
    let y = b.as_bytes();
    let mut i: usize = 0;
    assert(x@.skip(0) =~= x@);
    assert(y@.skip(0) =~= y@);
    while i < x.len() && i < y.len()
        invariant
            x@ == a.spec_bytes(),
            y@ == b.spec_bytes(),
            i <= x.len(),
            i <= y.len(),
            bytes_lt(x@, y@) == bytes_lt(x@.skip(i as int), y@.skip(i as int)),
        decreases x.len() - i,
    {
        assert(x@.skip(i as int)[0] == x@[i as int]);
        assert(y@.skip(i as int)[0] == y@[i as int]);
        if x[i] != y[i] {
            return x[i] < y[i];
        }
        assert(x@.skip(i as int).drop_first() =~= x@.skip(i + 1));
        assert(y@.skip(i as int).drop_first() =~= y@.skip(i + 1));
        i += 1;
    }
    i < y.len()
}

// ---------------------------------------------------------------------------
// Unicode case mapping (std)
// ---------------------------------------------------------------------------

/// All characters are ASCII.
pub open spec fn all_ascii(s: Seq<char>) -> bool {
    forall|i: int| 0 <= i < s.len() ==> (#[trigger] s[i] as u32) < 128
}

/// The ASCII lowercase of a character: 'A'..='Z' become 'a'..='z', every
/// other character is kept (as `char::to_ascii_lowercase` maps it).
pub open spec fn ascii_lower(c: char) -> char {
    if 65 <= (c as u32) <= 90 { ((c as u32) + 32) as char } else { c }
}

/// The ASCII uppercase of a character: 'a'..='z' become 'A'..='Z', every
/// other character is kept (as `char::to_ascii_uppercase` maps it).
pub open spec fn ascii_upper(c: char) -> char {
    if 97 <= (c as u32) <= 122 { ((c as u32) - 32) as char } else { c }
}

/// What `str::to_lowercase` returns on a string with the given characters.
pub uninterp spec fn str_lowercase(s: Seq<char>) -> Seq<char>;

/// What `str::to_uppercase` returns on a string with the given characters.
pub uninterp spec fn str_uppercase(s: Seq<char>) -> Seq<char>;

/// What `char::to_uppercase` yields for a character, collected in order.
pub uninterp spec fn char_uppercase(c: char) -> Seq<char>;

/// `str::to_lowercase`: the Unicode lowercase mapping of the whole string.
/// Its result is named by `str_lowercase`. Of it only this is claimed: on
/// ASCII text the Unicode mapping is the ASCII one, character by character
/// (std documents that ASCII letters map as `to_ascii_lowercase` maps them).
#[verifier::external_body]
pub(crate) fn to_lowercase(s: &str) -> (r: String)
    ensures
        r@ == str_lowercase(s@),
        all_ascii(s@) ==> r@ == s@.map_values(|c: char| ascii_lower(c)),
{
    s.to_lowercase()
}

/// `str::to_uppercase`: the Unicode uppercase mapping of the whole string.
/// Its result is named by `str_uppercase`. Of it only this is claimed: on
/// ASCII text the Unicode mapping is the ASCII one, character by character.
#[verifier::external_body]
pub(crate) fn to_uppercase(s: &str) -> (r: String)
    ensures
        r@ == str_uppercase(s@),
        all_ascii(s@) ==> r@ == s@.map_values(|c: char| ascii_upper(c)),
{
    s.to_uppercase()
}

/// `char::to_uppercase`, collected into a `String`. Its result is named by
/// `char_uppercase`. Of it only this is claimed: an ASCII character yields
/// the single character `to_ascii_uppercase` gives.
#[verifier::external_body]
pub(crate) fn char_to_uppercase(c: char) -> (r: String)
    ensures
        r@ == char_uppercase(c),
        (c as u32) < 128 ==> r@ == seq![ascii_upper(c)],
{
    c.to_uppercase().collect()
}

} // verus!
