//! Text as sequences of characters: the vocabulary that every other module
//! states its contracts in.

use vstd::prelude::*;
use vstd::utf8::{
    decode_utf8, encode_utf8, encode_utf8_decode_utf8, encode_utf8_valid_utf8, is_char_boundary,
    is_ascii_chars, is_ascii_chars_encode_utf8, is_char_boundary_iff_not_is_continuation_byte,
    is_char_boundary_start_end_of_seq,
};

verus! {

/// `String::push` appends one character at the end.
pub assume_specification[ std::string::String::push ](s: &mut std::string::String, c: char)
    ensures
        final(s)@ == old(s)@.push(c),
;

/// A value that can be duplicated without changing what it stands for.
pub trait Duplicate: DeepView + Sized {
    fn dup(&self) -> (r: Self)
        ensures
            r.deep_view() == self.deep_view(),
    ;
}

/// What a result stands for.
pub open spec fn outcome<T: DeepView, E: DeepView>(r: Result<T, E>) -> Result<T::V, E::V> {
    match r {
        Ok(v) => Ok(v.deep_view()),
        Err(e) => Err(e.deep_view()),
    }
}

/// A value whose meaning can be compared.
pub trait Same: DeepView + Sized {
    fn same(&self, other: &Self) -> (b: bool)
        ensures
            b == (self.deep_view() == other.deep_view()),
    ;
}

impl Duplicate for String {
    fn dup(&self) -> (r: Self) {
        self.clone()
    }
}

impl Duplicate for bool {
    fn dup(&self) -> (r: Self) {
        *self
    }
}

impl Duplicate for u8 {
    fn dup(&self) -> (r: Self) {
        *self
    }
}

impl Duplicate for u16 {
    fn dup(&self) -> (r: Self) {
        *self
    }
}

impl Duplicate for u32 {
    fn dup(&self) -> (r: Self) {
        *self
    }
}

impl Duplicate for u64 {
    fn dup(&self) -> (r: Self) {
        *self
    }
}

impl Duplicate for i32 {
    fn dup(&self) -> (r: Self) {
        *self
    }
}

impl Duplicate for i64 {
    fn dup(&self) -> (r: Self) {
        *self
    }
}

impl Duplicate for usize {
    fn dup(&self) -> (r: Self) {
        *self
    }
}

impl<T: Duplicate> Duplicate for Option<T> {
    fn dup(&self) -> (r: Self) {
        match self {
            Some(t) => Some(t.dup()),
            None => None,
        }
    }
}

impl<T: Duplicate> Duplicate for Vec<T> {
    fn dup(&self) -> (r: Self) {
        let mut out: Vec<T> = Vec::new();
        let mut i: usize = 0;
        while i < self.len()
            invariant
                i <= self.len(),
                out.len() == i,
                forall|k: int| 0 <= k < i ==> #[trigger] out@[k].deep_view() == self@[k].deep_view(),
            decreases self.len() - i,
        {
            out.push(self[i].dup());
            i = i + 1;
        }
        assert(out.deep_view() =~= self.deep_view());
        out
    }
}

impl<A: Duplicate, B: Duplicate> Duplicate for (A, B) {
    fn dup(&self) -> (r: Self) {
        (self.0.dup(), self.1.dup())
    }
}

impl Same for String {
    fn same(&self, other: &Self) -> (b: bool) {
        str_eq(self.as_str(), other.as_str())
    }
}

impl Same for bool {
    fn same(&self, other: &Self) -> (b: bool) {
        *self == *other
    }
}

impl Same for u32 {
    fn same(&self, other: &Self) -> (b: bool) {
        *self == *other
    }
}

impl Same for u64 {
    fn same(&self, other: &Self) -> (b: bool) {
        *self == *other
    }
}

impl Same for i64 {
    fn same(&self, other: &Self) -> (b: bool) {
        *self == *other
    }
}

impl<T: Same> Same for Option<T> {
    fn same(&self, other: &Self) -> (b: bool) {
        match (self, other) {
            (Some(a), Some(b)) => a.same(b),
            (None, None) => true,
            _ => false,
        }
    }
}

impl<T: Same> Same for Vec<T> {
    fn same(&self, other: &Self) -> (b: bool) {
        if self.len() != other.len() {
            assert(self.deep_view().len() != other.deep_view().len());
            return false;
        }
        let mut i: usize = 0;
        while i < self.len()
            invariant
                i <= self.len(),
                self.len() == other.len(),
                forall|k: int| 0 <= k < i ==> #[trigger] self@[k].deep_view() == other@[k].deep_view(),
            decreases self.len() - i,
        {
            if !self[i].same(&other[i]) {
                assert(self.deep_view()[i as int] != other.deep_view()[i as int]);
                return false;
            }
            i = i + 1;
        }
        assert(self.deep_view() =~= other.deep_view());
        true
    }
}

/// Whether two strings hold the same characters.
pub fn str_eq(a: &str, b: &str) -> (r: bool)
    ensures
        r == (a@ == b@),
{
    let x = a.as_bytes();
    let y = b.as_bytes();
    proof {
        encode_utf8_decode_utf8(a@);
        encode_utf8_decode_utf8(b@);
    }
    if x.len() != y.len() {
        return false;
    }
    let mut i: usize = 0;
    while i < x.len()
        invariant
            i <= x.len(),
            x.len() == y.len(),
            x@ == encode_utf8(a@),
            y@ == encode_utf8(b@),
            forall|k: int| 0 <= k < i ==> x@[k] == y@[k],
        decreases x.len() - i,
    {
        if x[i] != y[i] {
            return false;
        }
        i = i + 1;
    }
    assert(x@ =~= y@);
    true
}

/// The characters of a string, in order.
pub fn chars_of(s: &str) -> (v: Vec<char>)
    ensures
        v@ == s@,
{
    let mut v: Vec<char> = Vec::new();
    for c in iter: s.chars()
        invariant
            iter.seq() == s@,
            v@ == s@.subrange(0, iter.index() as int),
    {
        v.push(c);
        assert(v@ =~= s@.subrange(0, iter.index() + 1));
    }
    assert(v@ =~= s@);
    v
}

/// The string made of the characters from `from` up to `to`.
pub fn slice_string(v: &Vec<char>, from: usize, to: usize) -> (s: String)
    requires
        from <= to <= v@.len(),
    ensures
        s@ == v@.subrange(from as int, to as int),
{
    let mut s = String::new();
    let mut i: usize = from;
    while i < to
        invariant
            from <= i <= to <= v@.len(),
            s@ == v@.subrange(from as int, i as int),
        decreases to - i,
    {
        s.push(v[i]);
        i = i + 1;
        assert(s@ =~= v@.subrange(from as int, i as int));
    }
    s
}

/// The string that holds exactly the given characters.
pub fn string_of(v: &Vec<char>) -> (s: String)
    ensures
        s@ == v@,
{
    let s = slice_string(v, 0, v.len());
    assert(s@ =~= v@);
    s
}

/// The number of bytes that characters take in UTF-8.
pub open spec fn bytes_len(s: Seq<char>) -> nat {
    encode_utf8(s).len()
}

/// The length of a string in bytes.
pub fn byte_len(s: &str) -> (n: usize)
    ensures
        n == bytes_len(s@),
{
    s.as_bytes().len()
}

/// The characters that carry the UTF-8 bytes of `c`, one character per byte.
pub open spec fn byte_chars(c: char) -> Seq<char> {
    encode_utf8(seq![c]).map_values(|b: u8| b as char)
}

/// Appends the UTF-8 bytes of `c`, one character per byte.
pub fn push_byte_chars(out: &mut String, c: char)
    ensures
        final(out)@ == old(out)@ + byte_chars(c),
{
    let mut one = String::new();
    one.push(c);
    assert(one@ =~= seq![c]);
    let bytes = one.as_str().as_bytes();
    let mut i: usize = 0;
    assert(out@ =~= old(out)@ + byte_chars(c).subrange(0, 0));
    while i < bytes.len()
        invariant
            i <= bytes.len(),
            bytes@ == encode_utf8(seq![c]),
            out@ == old(out)@ + byte_chars(c).subrange(0, i as int),
        decreases bytes.len() - i,
    {
        out.push(bytes[i] as char);
        i = i + 1;
        assert(out@ =~= old(out)@ + byte_chars(c).subrange(0, i as int));
    }
    assert(byte_chars(c).subrange(0, i as int) =~= byte_chars(c));
}

/// The first position from `i` on at which `c` stands, or the length.
pub open spec fn next_char(s: Seq<char>, i: int, c: char) -> int
    decreases s.len() - i,
{
    if i >= s.len() {
        s.len() as int
    } else if s[i] == c {
        i
    } else {
        next_char(s, i + 1, c)
    }
}

/// The bounds of the next position of a character.
pub proof fn next_char_bounds(s: Seq<char>, i: int, c: char)
    requires
        0 <= i <= s.len(),
    ensures
        i <= next_char(s, i, c) <= s.len(),
        next_char(s, i, c) < s.len() ==> s[next_char(s, i, c)] == c,
        forall|k: int| i <= k < next_char(s, i, c) ==> s[k] != c,
    decreases s.len() - i,
{
    if i < s.len() && s[i] != c {
        next_char_bounds(s, i + 1, c);
    }
}

pub fn find_char(v: &Vec<char>, from: usize, c: char) -> (r: usize)
    requires
        from <= v@.len(),
    ensures
        r == next_char(v@, from as int, c),
        from <= r <= v@.len(),
{
    let mut i: usize = from;
    while i < v.len() && v[i] != c
        invariant
            from <= i <= v@.len(),
            next_char(v@, from as int, c) == next_char(v@, i as int, c),
        decreases v.len() - i,
    {
        i = i + 1;
    }
    i
}

/// Whether `p` stands in `s` at position `i`.
pub open spec fn starts_at(s: Seq<char>, i: int, p: Seq<char>) -> bool {
    0 <= i && i + p.len() <= s.len() && s.subrange(i, i + p.len()) == p
}

pub fn starts_at_pos(v: &Vec<char>, i: usize, p: &str) -> (r: bool)
    requires
        i <= v@.len(),
    ensures
        r == starts_at(v@, i as int, p@),
{
    let w = chars_of(p);
    if w.len() > v.len() - i {
        return false;
    }
    let mut k: usize = 0;
    while k < w.len()
        invariant
            k <= w@.len(),
            w@ == p@,
            i + w.len() <= v.len(),
            forall|j: int| 0 <= j < k ==> v@[i + j] == p@[j],
        decreases w.len() - k,
    {
        if v[i + k] != w[k] {
            assert(v@.subrange(i as int, i + p@.len())[k as int] != p@[k as int]);
            return false;
        }
        k = k + 1;
    }
    assert(v@.subrange(i as int, i + p@.len()) =~= p@);
    true
}

/// Whether `s` begins with `p`.
pub open spec fn has_prefix(s: Seq<char>, p: Seq<char>) -> bool {
    starts_at(s, 0, p)
}

/// What follows the first `n` characters.
pub open spec fn rest(s: Seq<char>, n: int) -> Seq<char> {
    s.subrange(n, s.len() as int)
}

pub fn starts_with(s: &str, p: &str) -> (r: bool)
    ensures
        r == has_prefix(s@, p@),
{
    starts_at_pos(&chars_of(s), 0, p)
}

/// What follows the prefix `p`, if `s` begins with it.
pub fn strip_prefix(s: &str, p: &str) -> (r: Option<String>)
    ensures
        r.deep_view() == if has_prefix(s@, p@) {
            Some(rest(s@, p@.len() as int))
        } else {
            None
        },
{
    let v = chars_of(s);
    if starts_at_pos(&v, 0, p) {
        let w = chars_of(p);
        Some(slice_string(&v, w.len(), v.len()))
    } else {
        None
    }
}

/// Whether `p` stands anywhere in `s`.
pub open spec fn contains(s: Seq<char>, p: Seq<char>) -> bool {
    exists|i: int| starts_at(s, i, p)
}

pub fn str_contains(s: &str, p: &str) -> (r: bool)
    ensures
        r == contains(s@, p@),
{
    let v = chars_of(s);
    let mut i: usize = 0;
    while i < v.len()
        invariant
            i <= v@.len(),
            v@ == s@,
            forall|k: int| 0 <= k < i ==> !starts_at(s@, k, p@),
        decreases v.len() - i,
    {
        if starts_at_pos(&v, i, p) {
            return true;
        }
        i = i + 1;
    }
    let last = starts_at_pos(&v, v.len(), p);
    last
}

pub fn cat2(a: &str, b: &str) -> (r: String)
    ensures
        r@ == a@ + b@,
{
    let mut r = a.to_owned();
    r.append(b);
    r
}

pub fn cat3(a: &str, b: &str, c: &str) -> (r: String)
    ensures
        r@ == a@ + b@ + c@,
{
    let mut r = cat2(a, b);
    r.append(c);
    r
}

pub fn cat4(a: &str, b: &str, c: &str, d: &str) -> (r: String)
    ensures
        r@ == a@ + b@ + c@ + d@,
{
    let mut r = cat3(a, b, c);
    r.append(d);
    r
}

pub fn cat5(a: &str, b: &str, c: &str, d: &str, e: &str) -> (r: String)
    ensures
        r@ == a@ + b@ + c@ + d@ + e@,
{
    let mut r = cat4(a, b, c, d);
    r.append(e);
    r
}

pub fn cat6(a: &str, b: &str, c: &str, d: &str, e: &str, f: &str) -> (r: String)
    ensures
        r@ == a@ + b@ + c@ + d@ + e@ + f@,
{
    let mut r = cat5(a, b, c, d, e);
    r.append(f);
    r
}

pub fn cat7(a: &str, b: &str, c: &str, d: &str, e: &str, f: &str, g: &str) -> (r: String)
    ensures
        r@ == a@ + b@ + c@ + d@ + e@ + f@ + g@,
{
    let mut r = cat6(a, b, c, d, e, f);
    r.append(g);
    r
}

/// The decimal digit of a number below ten.
pub open spec fn digit(n: nat) -> char {
    (('0' as u32 + n) as u32) as char
}

/// A number in decimal.
pub open spec fn decimal(n: nat) -> Seq<char>
    decreases n,
{
    if n < 10 {
        seq![digit(n)]
    } else {
        decimal(n / 10).push(digit(n % 10))
    }
}

pub fn decimal_string(n: u64) -> (r: String)
    ensures
        r@ == decimal(n as nat),
    decreases n,
{
    let last = n % 10;
    let d = (48u8 + last as u8) as char;
    assert(d == digit(last as nat));
    let mut r = if n < 10 {
        String::new()
    } else {
        decimal_string(n / 10)
    };
    r.push(d);
    assert(n < 10 ==> r@ =~= seq![d]);
    r
}

/// Whether a character is white space (the Unicode property `White_Space`).
pub open spec fn is_white(c: char) -> bool {
    let u = c as u32;
    ||| 9 <= u <= 13
    ||| u == 32
    ||| u == 0x85
    ||| u == 0xA0
    ||| u == 0x1680
    ||| 0x2000 <= u <= 0x200A
    ||| u == 0x2028
    ||| u == 0x2029
    ||| u == 0x202F
    ||| u == 0x205F
    ||| u == 0x3000
}

pub fn white(c: char) -> (r: bool)
    ensures
        r == is_white(c),
{
    let u: u32 = c as u32;
    (9 <= u && u <= 13) || u == 32 || u == 0x85 || u == 0xA0 || u == 0x1680 || (0x2000 <= u && u
        <= 0x200A) || u == 0x2028 || u == 0x2029 || u == 0x202F || u == 0x205F || u == 0x3000
}

/// `s` without the white space at its start.
pub open spec fn trim_start(s: Seq<char>) -> Seq<char>
    decreases s.len(),
{
    if s.len() > 0 && is_white(s[0]) {
        trim_start(s.drop_first())
    } else {
        s
    }
}

/// `s` without the white space at its end.
pub open spec fn trim_end(s: Seq<char>) -> Seq<char>
    decreases s.len(),
{
    if s.len() > 0 && is_white(s.last()) {
        trim_end(s.drop_last())
    } else {
        s
    }
}

/// `s` without the white space at either end.
pub open spec fn trim(s: Seq<char>) -> Seq<char> {
    trim_end(trim_start(s))
}

pub fn trim_string(s: &str) -> (r: String)
    ensures
        r@ == trim(s@),
{
    let v = chars_of(s);
    let mut i: usize = 0;
    let mut j: usize = v.len();
    assert(v@.subrange(0, v@.len() as int) =~= v@);
    while i < v.len() && white(v[i])
        invariant
            i <= v@.len(),
            trim_start(v@) == trim_start(v@.subrange(i as int, v@.len() as int)),
        decreases v.len() - i,
    {
        assert(v@.subrange(i as int, v@.len() as int).drop_first() =~= v@.subrange(
            i + 1,
            v@.len() as int,
        ));
        i = i + 1;
    }
    assert(trim_start(v@) == v@.subrange(i as int, v@.len() as int));
    while j > i && white(v[j - 1])
        invariant
            i <= j <= v@.len(),
            trim_end(trim_start(v@)) == trim_end(v@.subrange(i as int, j as int)),
        decreases j,
    {
        assert(v@.subrange(i as int, j as int).drop_last() =~= v@.subrange(i as int, j - 1));
        assert(v@.subrange(i as int, j as int).last() == v@[j - 1]);
        j = j - 1;
    }
    if j > i {
        assert(v@.subrange(i as int, j as int).last() == v@[j - 1]);
    }
    slice_string(&v, i, j)
}

/// Whether `s` holds nothing but white space.
pub open spec fn is_blank(s: Seq<char>) -> bool {
    trim(s).len() == 0
}

pub fn blank(s: &str) -> (r: bool)
    ensures
        r == is_blank(s@),
{
    let t = trim_string(s);
    chars_of(t.as_str()).len() == 0
}

/// A character in lower case, where it is one of the English alphabet.
pub open spec fn ascii_lower(c: char) -> char {
    if 'A' <= c <= 'Z' {
        ((c as u32 + 32) as u32) as char
    } else {
        c
    }
}

/// Whether a text is the given one, whatever the case of its letters.
pub open spec fn same_ignoring_case(a: Seq<char>, b: Seq<char>) -> bool {
    a.map_values(|c: char| ascii_lower(c)) == b.map_values(|c: char| ascii_lower(c))
}

fn lower(c: char) -> (r: char)
    ensures
        r == ascii_lower(c),
{
    if 'A' <= c && c <= 'Z' {
        (c as u8 + 32) as char
    } else {
        c
    }
}

/// Whether two texts differ at most in the case of English letters.
pub fn eq_ignore_ascii_case(a: &str, b: &str) -> (r: bool)
    ensures
        r == same_ignoring_case(a@, b@),
{
    let x = chars_of(a);
    let y = chars_of(b);
    let ghost f = |c: char| ascii_lower(c);
    if x.len() != y.len() {
        assert(a@.map_values(f).len() != b@.map_values(f).len());
        return false;
    }
    let mut i: usize = 0;
    while i < x.len()
        invariant
            i <= x@.len(),
            x@.len() == y@.len(),
            x@ == a@,
            y@ == b@,
            f == (|c: char| ascii_lower(c)),
            forall|k: int| 0 <= k < i ==> ascii_lower(#[trigger] x@[k]) == ascii_lower(y@[k]),
        decreases x.len() - i,
    {
        if lower(x[i]) != lower(y[i]) {
            assert(a@.map_values(f)[i as int] != b@.map_values(f)[i as int]);
            return false;
        }
        i = i + 1;
    }
    assert(a@.map_values(f) =~= b@.map_values(f));
    true
}

/// A text in lower case, as `str::to_lowercase` gives it.
pub uninterp spec fn lowercased(s: Seq<char>) -> Seq<char>;

/// `str::to_lowercase`. Claims only that the outcome is a function of the text.
#[verifier::external_body]
pub(crate) fn to_lowercase(s: &str) -> (r: String)
    ensures
        r@ == lowercased(s@),
{
    s.to_lowercase()
}

/// The first `n` bytes of a text, all of it where it is shorter, and nothing
/// where the cut would fall inside a character.
pub open spec fn cut(s: Seq<char>, n: nat) -> Option<Seq<char>> {
    if bytes_len(s) <= n {
        Some(s)
    } else if is_char_boundary(encode_utf8(s), n as int) {
        Some(decode_utf8(encode_utf8(s).subrange(0, n as int)))
    } else {
        None
    }
}

pub fn cut_string(s: &str, n: usize) -> (r: Option<String>)
    ensures
        r.deep_view() == cut(s@, n as nat),
{
    if byte_len(s) <= n {
        return Some(s.to_owned());
    }
    if s.is_char_boundary(n) {
        let (head, _) = s.split_at(n);
        proof {
            encode_utf8_decode_utf8(head@);
        }
        Some(head.to_owned())
    } else {
        None
    }
}

/// Texts one after the other, with `sep` between them.
pub open spec fn join(parts: Seq<Seq<char>>, sep: Seq<char>) -> Seq<char>
    decreases parts.len(),
{
    if parts.len() == 0 {
        Seq::empty()
    } else if parts.len() == 1 {
        parts[0]
    } else {
        join(parts.drop_last(), sep) + sep + parts.last()
    }
}

pub fn join_strings(parts: &Vec<String>, sep: &str) -> (r: String)
    ensures
        r@ == join(parts.deep_view(), sep@),
{
    let ghost seen = parts.deep_view();
    let mut out = String::new();
    let mut i: usize = 0;
    assert(out@ =~= join(seen.subrange(0, 0), sep@));
    while i < parts.len()
        invariant
            i <= parts.len(),
            seen == parts.deep_view(),
            out@ == join(seen.subrange(0, i as int), sep@),
        decreases parts.len() - i,
    {
        assert(seen.subrange(0, i + 1).drop_last() =~= seen.subrange(0, i as int));
        if i > 0 {
            out.append(sep);
            out.append(parts[i].as_str());
        } else {
            out = parts[i].clone();
        }
        i = i + 1;
    }
    assert(seen.subrange(0, i as int) =~= seen);
    out
}

/// A text as its `Debug` form shows it: in quotes, with escapes.
pub uninterp spec fn debug_text(s: Seq<char>) -> Seq<char>;

/// The `Debug` form of `str`. Claims only that it is a function of the text.
#[verifier::external_body]
pub(crate) fn debug_string(s: &str) -> (r: String)
    ensures
        r@ == debug_text(s@),
{
    format!("{:?}", s)
}

/// The `Debug` forms of texts.
pub open spec fn debug_texts(v: Seq<Seq<char>>) -> Seq<Seq<char>> {
    v.map_values(|s: Seq<char>| debug_text(s))
}

/// Texts as the `Debug` form of a list shows them.
pub open spec fn debug_list(v: Seq<Seq<char>>) -> Seq<char> {
    "["@ + join(debug_texts(v), ", "@) + "]"@
}

pub fn debug_strings(v: &Vec<String>) -> (r: String)
    ensures
        r@ == debug_list(v.deep_view()),
{
    let mut shown: Vec<String> = Vec::new();
    let mut i: usize = 0;
    while i < v.len()
        invariant
            i <= v@.len(),
            shown@.len() == i,
            forall|k: int| 0 <= k < i ==> (#[trigger] shown@[k])@ == debug_text(v@[k]@),
        decreases v.len() - i,
    {
        shown.push(debug_string(v[i].as_str()));
        i = i + 1;
    }
    assert(shown.deep_view() =~= debug_texts(v.deep_view()));
    let list = join_strings(&shown, ", ");
    cat3("[", list.as_str(), "]")
}

/// Whether `prefix` is how `s` begins.
pub open spec fn list_prefix<T>(s: Seq<T>, prefix: Seq<T>) -> bool {
    prefix.len() <= s.len() && s.subrange(0, prefix.len() as int) == prefix
}

pub fn list_starts_with(v: &Vec<String>, prefix: &Vec<String>) -> (r: bool)
    ensures
        r == list_prefix(v.deep_view(), prefix.deep_view()),
{
    let ghost a = v.deep_view();
    let ghost b = prefix.deep_view();
    if prefix.len() > v.len() {
        return false;
    }
    let mut i: usize = 0;
    while i < prefix.len()
        invariant
            i <= prefix.len() <= v.len(),
            a == v.deep_view(),
            b == prefix.deep_view(),
            forall|k: int| 0 <= k < i ==> a[k] == b[k],
        decreases prefix.len() - i,
    {
        if !str_eq(v[i].as_str(), prefix[i].as_str()) {
            assert(a.subrange(0, b.len() as int)[i as int] != b[i as int]);
            return false;
        }
        i = i + 1;
    }
    assert(a.subrange(0, b.len() as int) =~= b);
    true
}

/// Whether a text is among others.
pub fn list_contains(v: &Vec<String>, s: &str) -> (r: bool)
    ensures
        r == v.deep_view().contains(s@),
{
    let mut i: usize = 0;
    while i < v.len()
        invariant
            i <= v.len(),
            forall|k: int| 0 <= k < i ==> v.deep_view()[k] != s@,
        decreases v.len() - i,
    {
        if str_eq(v[i].as_str(), s) {
            assert(v.deep_view()[i as int] == s@);
            return true;
        }
        i = i + 1;
    }
    false
}

/// A line without the carriage return at its end.
pub open spec fn without_cr(s: Seq<char>) -> Seq<char> {
    if s.len() > 0 && s.last() == '\r' {
        s.drop_last()
    } else {
        s
    }
}

/// The lines from position `i` on. A line ends with a line feed, which a carriage return
/// may precede; neither belongs to the line, and the last line need not end so.
pub open spec fn lines_from(s: Seq<char>, i: int) -> Seq<Seq<char>>
    decreases s.len() - i,
{
    if i < 0 || i >= s.len() {
        Seq::empty()
    } else {
        let n = next_char(s, i, '\n');
        if n >= s.len() || n < i {
            seq![s.subrange(i, s.len() as int)]
        } else {
            seq![without_cr(s.subrange(i, n))] + lines_from(s, n + 1)
        }
    }
}

/// The lines of a text.
pub open spec fn lines(s: Seq<char>) -> Seq<Seq<char>> {
    lines_from(s, 0)
}

pub fn lines_of(s: &str) -> (r: Vec<String>)
    ensures
        r.deep_view() == lines(s@),
{
    let v = chars_of(s);
    let mut out: Vec<String> = Vec::new();
    let mut i: usize = 0;
    assert(out.deep_view() =~= Seq::empty());
    assert(lines(v@) =~= out.deep_view() + lines_from(v@, 0));
    while i < v.len()
        invariant
            i <= v@.len(),
            v@ == s@,
            lines(s@) == out.deep_view() + lines_from(v@, i as int),
        decreases v.len() - i,
    {
        let n = find_char(&v, i, '\n');
        let ghost before = out.deep_view();
        if n >= v.len() {
            out.push(slice_string(&v, i, v.len()));
            assert(out.deep_view() =~= before.push(v@.subrange(i as int, v@.len() as int)));
            assert(out.deep_view() =~= before + lines_from(v@, i as int));
            return out;
        }
        let end: usize = if n > i && v[n - 1] == '\r' {
            n - 1
        } else {
            n
        };
        let line = slice_string(&v, i, end);
        proof {
            let whole = v@.subrange(i as int, n as int);
            assert(n > i ==> whole.last() == v@[n - 1]);
            assert(line@ =~= without_cr(whole));
        }
        out.push(line);
        assert(out.deep_view() =~= before.push(line@));
        assert(out.deep_view() + lines_from(v@, n + 1) =~= before + lines_from(v@, i as int));
        i = n + 1;
    }
    assert(out.deep_view() + lines_from(v@, i as int) =~= out.deep_view());
    out
}

/// The characters that the bytes from `a` up to `b` make, where both are the bounds of
/// characters.
pub open spec fn byte_slice(s: Seq<char>, a: int, b: int) -> Option<Seq<char>> {
    let e = encode_utf8(s);
    if 0 <= a <= b <= e.len() && is_char_boundary(e, a) && is_char_boundary(e, b) {
        Some(decode_utf8(e.subrange(a, b)))
    } else {
        None
    }
}

pub fn slice_bytes(s: &str, a: usize, b: usize) -> (r: Option<String>)
    ensures
        r.deep_view() == byte_slice(s@, a as int, b as int),
{
    let ghost e = encode_utf8(s@);
    proof {
        encode_utf8_valid_utf8(s@);
    }
    if a > b || b > byte_len(s) || !s.is_char_boundary(a) || !s.is_char_boundary(b) {
        return None;
    }
    let (head, _) = s.split_at(b);
    proof {
        let h = e.subrange(0, b as int);
        assert(encode_utf8(head@) == h);
        encode_utf8_valid_utf8(head@);
        if a < b {
            is_char_boundary_iff_not_is_continuation_byte(e, a as int);
            is_char_boundary_iff_not_is_continuation_byte(h, a as int);
            assert(h[a as int] == e[a as int]);
        } else {
            is_char_boundary_start_end_of_seq(h);
        }
    }
    let (_, tail) = head.split_at(a);
    proof {
        encode_utf8_decode_utf8(tail@);
        assert(encode_utf8(tail@) =~= e.subrange(a as int, b as int));
    }
    Some(tail.to_owned())
}

/// The bytes of two texts together.
pub proof fn bytes_len_add(a: Seq<char>, b: Seq<char>)
    ensures
        bytes_len(a + b) == bytes_len(a) + bytes_len(b),
    decreases a.len(),
{
    if a.len() == 0 {
        assert(a + b =~= b);
    } else {
        assert((a + b).drop_first() =~= a.drop_first() + b);
        assert((a + b)[0] == a[0]);
        bytes_len_add(a.drop_first(), b);
    }
}

/// The bytes of the first `n` lines, with one for the end of each.
pub open spec fn lines_bytes(l: Seq<Seq<char>>, n: int) -> nat
    decreases n,
{
    if n <= 0 {
        0
    } else {
        lines_bytes(l, n - 1) + bytes_len(l[n - 1]) + 1
    }
}

/// One more line before others adds its bytes and its end.
pub proof fn lines_bytes_shift(first: Seq<char>, l: Seq<Seq<char>>, n: int)
    requires
        0 <= n <= l.len(),
    ensures
        lines_bytes(seq![first] + l, n + 1) == bytes_len(first) + 1 + lines_bytes(l, n),
    decreases n,
{
    let all = seq![first] + l;
    if n > 0 {
        lines_bytes_shift(first, l, n - 1);
        assert(all[n] == l[n - 1]);
    } else {
        assert(all[0] == first);
        reveal_with_fuel(lines_bytes, 2);
    }
}

proof fn lines_from_fit(s: Seq<char>, i: int, n: int)
    requires
        0 <= i <= s.len(),
        0 <= n <= lines_from(s, i).len(),
    ensures
        lines_bytes(lines_from(s, i), n) <= bytes_len(s.subrange(i, s.len() as int)) + 1,
    decreases s.len() - i,
{
    if i < s.len() && n > 0 {
        let e = next_char(s, i, '\n');
        next_char_bounds(s, i, '\n');
        let tail = s.subrange(i, s.len() as int);
        if e >= s.len() {
            reveal_with_fuel(lines_bytes, 2);
        } else {
            let whole = s.subrange(i, e);
            let line = without_cr(whole);
            let feed = seq!['\n'];
            let below = s.subrange(e + 1, s.len() as int);
            lines_from_fit(s, e + 1, n - 1);
            lines_bytes_shift(line, lines_from(s, e + 1), n - 1);
            assert(tail =~= whole + feed + below);
            bytes_len_add(whole + feed, below);
            bytes_len_add(whole, feed);
            if whole.len() > 0 && whole.last() == '\r' {
                assert(whole =~= line + seq!['\r']);
                bytes_len_add(line, seq!['\r']);
            }
            assert(is_ascii_chars(feed));
            is_ascii_chars_encode_utf8(feed);
        }
    }
}

/// The lines of a text take no more bytes than the text, but for the end of the last.
pub proof fn lines_fit(s: Seq<char>, n: int)
    requires
        0 <= n <= lines(s).len(),
    ensures
        lines_bytes(lines(s), n) <= bytes_len(s) + 1,
{
    lines_from_fit(s, 0, n);
    assert(s.subrange(0, s.len() as int) =~= s);
}

/// The pieces between the occurrences of `c` from position `i` on.
pub open spec fn split_from(s: Seq<char>, i: int, c: char) -> Seq<Seq<char>>
    decreases s.len() - i,
{
    let n = next_char(s, i, c);
    if i < 0 || n >= s.len() || n < i {
        seq![s.subrange(i, s.len() as int)]
    } else {
        seq![s.subrange(i, n)] + split_from(s, n + 1, c)
    }
}

/// The pieces between the occurrences of `c`: one more than there are of these.
pub open spec fn split(s: Seq<char>, c: char) -> Seq<Seq<char>> {
    split_from(s, 0, c)
}

pub fn split_on(s: &str, c: char) -> (r: Vec<String>)
    ensures
        r.deep_view() == split(s@, c),
        r@.len() > 0,
{
    let v = chars_of(s);
    let mut out: Vec<String> = Vec::new();
    let mut i: usize = 0;
    assert(out.deep_view() =~= Seq::empty());
    assert(split(v@, c) =~= out.deep_view() + split_from(v@, 0, c));
    loop
        invariant
            i <= v@.len(),
            v@ == s@,
            split(s@, c) == out.deep_view() + split_from(v@, i as int, c),
        decreases v.len() - i,
    {
        let n = find_char(&v, i, c);
        let ghost before = out.deep_view();
        if n >= v.len() {
            let piece = slice_string(&v, i, v.len());
            out.push(piece);
            assert(out.deep_view() =~= before.push(piece@));
            assert(out.deep_view() =~= before + split_from(v@, i as int, c));
            return out;
        }
        let piece = slice_string(&v, i, n);
        out.push(piece);
        assert(out.deep_view() =~= before.push(piece@));
        assert(out.deep_view() + split_from(v@, n + 1, c) =~= before + split_from(
            v@,
            i as int,
            c,
        ));
        i = n + 1;
    }
}

/// No piece holds the character that the text was split at.
pub proof fn pieces_are_free(s: Seq<char>, i: int, c: char)
    requires
        0 <= i <= s.len(),
    ensures
        forall|k: int|
            0 <= k < split_from(s, i, c).len() ==> !(#[trigger] split_from(s, i, c)[k]).contains(c),
    decreases s.len() - i,
{
    next_char_bounds(s, i, c);
    let n = next_char(s, i, c);
    let all = split_from(s, i, c);
    if n < s.len() {
        pieces_are_free(s, n + 1, c);
        let below = split_from(s, n + 1, c);
        assert forall|k: int| 0 <= k < all.len() implies !(#[trigger] all[k]).contains(c) by {
            if k > 0 {
                assert(all[k] == below[k - 1]);
            } else {
                assert(all[0] == s.subrange(i, n));
            }
        }
    }
}

/// What is looked for in the first of two texts is found there, or looked for in the second.
pub proof fn next_char_in(a: Seq<char>, b: Seq<char>, i: int, c: char)
    requires
        0 <= i <= a.len(),
    ensures
        next_char(a, i, c) < a.len() ==> next_char(a + b, i, c) == next_char(a, i, c),
        next_char(a, i, c) >= a.len() ==> next_char(a + b, i, c) == next_char(
            a + b,
            a.len() as int,
            c,
        ),
    decreases a.len() - i,
{
    if i < a.len() {
        assert((a + b)[i] == a[i]);
        if a[i] != c {
            next_char_in(a, b, i + 1, c);
        }
    }
}

/// What is looked for in the second of two texts is found there.
pub proof fn next_char_behind(a: Seq<char>, b: Seq<char>, j: int, c: char)
    requires
        0 <= j <= b.len(),
    ensures
        next_char(a + b, a.len() + j, c) == a.len() + next_char(b, j, c),
    decreases b.len() - j,
{
    if j < b.len() {
        assert((a + b)[a.len() + j] == b[j]);
        if b[j] != c {
            next_char_behind(a, b, j + 1, c);
        }
    }
}

proof fn split_behind(a: Seq<char>, b: Seq<char>, j: int, c: char)
    requires
        0 <= j <= b.len(),
    ensures
        split_from(a + b, a.len() + j, c) == split_from(b, j, c),
    decreases b.len() - j,
{
    next_char_behind(a, b, j, c);
    next_char_bounds(b, j, c);
    let n = next_char(b, j, c);
    let s = a + b;
    if n < b.len() {
        split_behind(a, b, n + 1, c);
        assert(s.subrange(a.len() + j, a.len() + n) =~= b.subrange(j, n));
    } else {
        assert(s.subrange(a.len() + j, s.len() as int) =~= b.subrange(j, b.len() as int));
    }
}

proof fn split_before(a: Seq<char>, b: Seq<char>, i: int, c: char)
    requires
        0 <= i <= a.len(),
    ensures
        split_from(a.push(c) + b, i, c) == split_from(a, i, c) + split(b, c),
    decreases a.len() - i,
{
    let s = a.push(c) + b;
    let tail = seq![c] + b;
    assert(s =~= a + tail);
    next_char_in(a, tail, i, c);
    next_char_bounds(a, i, c);
    let n = next_char(a, i, c);
    if n < a.len() {
        split_before(a, b, n + 1, c);
        assert(s.subrange(i, n) =~= a.subrange(i, n));
        assert(split_from(s, i, c) =~= split_from(a, i, c) + split(b, c));
    } else {
        assert(s[a.len() as int] == c);
        assert(next_char(s, i, c) == a.len());
        assert(s.subrange(i, a.len() as int) =~= a.subrange(i, a.len() as int));
        split_behind(a.push(c), b, 0, c);
        assert(split_from(s, i, c) =~= split_from(a, i, c) + split(b, c));
    }
}

/// The pieces of two texts with the character between them are those of the one and then
/// those of the other.
pub proof fn split_between(a: Seq<char>, b: Seq<char>, c: char)
    ensures
        split(a.push(c) + b, c) == split(a, c) + split(b, c),
{
    split_before(a, b, 0, c);
}

proof fn no_next_char(s: Seq<char>, i: int, c: char)
    requires
        0 <= i <= s.len(),
        !s.contains(c),
    ensures
        next_char(s, i, c) == s.len(),
    decreases s.len() - i,
{
    if i < s.len() {
        assert(s.contains(s[i]));
        no_next_char(s, i + 1, c);
    }
}

/// Texts that are joined by a character that none of them holds are found again by
/// splitting at it.
pub proof fn split_undoes_join(parts: Seq<Seq<char>>, c: char)
    requires
        parts.len() > 0,
        forall|k: int| 0 <= k < parts.len() ==> !(#[trigger] parts[k]).contains(c),
    ensures
        split(join(parts, seq![c]), c) == parts,
    decreases parts.len(),
{
    let last = parts.last();
    no_next_char(last, 0, c);
    assert(last.subrange(0, last.len() as int) =~= last);
    assert(split(last, c) =~= seq![last]);
    if parts.len() > 1 {
        let first = parts.drop_last();
        assert forall|k: int| 0 <= k < first.len() implies !(#[trigger] first[k]).contains(c) by {
            assert(first[k] == parts[k]);
        }
        split_undoes_join(first, c);
        split_between(join(first, seq![c]), last, c);
        assert(join(first, seq![c]).push(c) + last =~= join(parts, seq![c]));
        assert(first + seq![last] =~= parts);
    } else {
        assert(seq![last] =~= parts);
    }
}

} // verus!
