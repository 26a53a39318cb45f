//! Text helpers: character sequences of strings, trimming, hexadecimal and
//! UUID renderings.

use vstd::prelude::*;
use vstd::string::*;

verus! {

/// Appends one character to a string (`String::push`).
#[verifier::external_body]
pub(crate) fn push_char(s: &mut String, c: char)
    ensures
        final(s)@ == old(s)@.push(c),
{
    s.push(c);
}

/// The characters of `s`, in order.
pub fn chars_of(s: &str) -> (v: Vec<char>)
    ensures
        v@ == s@,
{
    let n = s.unicode_len();
    let mut v: Vec<char> = Vec::new();
    let mut i: usize = 0;
    while i < n
        invariant
            n == s@.len(),
            i <= n,
            v@ == s@.subrange(0, i as int),
        decreases n - i,
    {
        v.push(s.get_char(i));
        i = i + 1;
    }
    v
}

/// The string made of the characters `chars[from..to]`.
pub fn string_from_range(chars: &Vec<char>, from: usize, to: usize) -> (s: String)
    requires
        from <= to <= chars@.len(),
    ensures
        s@ == chars@.subrange(from as int, to as int),
{
    let mut s = String::new();
    let mut i = from;
    while i < to
        invariant
            from <= i <= to <= chars@.len(),
            s@ == chars@.subrange(from as int, i as int),
        decreases to - i,
    {
        push_char(&mut s, chars[i]);
        i = i + 1;
    }
    s
}

/// Whether two texts hold the same characters.
pub fn same_text(a: &str, b: &str) -> (r: bool)
    ensures
        r == (a@ == b@),
{
    let x = chars_of(a);
    let y = chars_of(b);
    if x.len() != y.len() {
        return false;
    }
    let mut i: usize = 0;
    while i < x.len()
        invariant
            x@ == a@,
            y@ == b@,
            x@.len() == y@.len(),
            i <= x@.len(),
            forall|k: int| 0 <= k < i ==> x@[k] == y@[k],
        decreases x@.len() - i,
    {
        if x[i] != y[i] {
            return false;
        }
        i = i + 1;
    }
    assert(x@ =~= y@);
    true
}

/// Whether `prefix` is a prefix of `s`.
pub open spec fn has_prefix(s: Seq<char>, prefix: Seq<char>) -> bool {
    prefix.len() <= s.len() && s.subrange(0, prefix.len() as int) == prefix
}

/// Whether the text `s` begins with the text `prefix` (`str::starts_with`).
pub fn starts_with(s: &str, prefix: &str) -> (r: bool)
    ensures
        r == has_prefix(s@, prefix@),
{
    let x = chars_of(s);
    let p = chars_of(prefix);
    if p.len() > x.len() {
        return false;
    }
    let mut i: usize = 0;
    while i < p.len()
        invariant
            x@ == s@,
            p@ == prefix@,
            p@.len() <= x@.len(),
            i <= p@.len(),
            forall|k: int| 0 <= k < i ==> x@[k] == p@[k],
        decreases p@.len() - i,
    {
        if x[i] != p[i] {
            assert(s@.subrange(0, prefix@.len() as int)[i as int] != prefix@[i as int]);
            return false;
        }
        i = i + 1;
    }
    assert(s@.subrange(0, prefix@.len() as int) =~= prefix@);
    true
}

/// Whether `c` occurs in `s`.
pub fn contains_char(s: &Vec<char>, c: char) -> (r: bool)
    ensures
        r == s@.contains(c),
{
    let mut i: usize = 0;
    while i < s.len()
        invariant
            i <= s@.len(),
            forall|k: int| 0 <= k < i ==> s@[k] != c,
        decreases s@.len() - i,
    {
        if s[i] == c {
            assert(s@[i as int] == c);
            return true;
        }
        i = i + 1;
    }
    false
}

/// Unicode `White_Space`, as `char::is_whitespace` defines it.
pub open spec fn is_whitespace(c: char) -> bool {
    let n = c as u32;
    ||| 0x9 <= n <= 0xd
    ||| n == 0x20
    ||| n == 0x85
    ||| n == 0xa0
    ||| n == 0x1680
    ||| 0x2000 <= n <= 0x200a
    ||| n == 0x2028
    ||| n == 0x2029
    ||| n == 0x202f
    ||| n == 0x205f
    ||| n == 0x3000
}

/// Whether `c` is Unicode white space.
pub fn whitespace(c: char) -> (r: bool)
    ensures
        r == is_whitespace(c),
{
    let n = c as u32;
    (0x9 <= n && n <= 0xd) || n == 0x20 || n == 0x85 || n == 0xa0 || n == 0x1680 || (0x2000 <= n
        && n <= 0x200a) || n == 0x2028 || n == 0x2029 || n == 0x202f || n == 0x205f || n == 0x3000
}

/// Index of the first character at or after `i` that is not white space, or
/// the length when there is none.
pub open spec fn first_kept(s: Seq<char>, i: int) -> int
    decreases s.len() - i,
{
    if i >= s.len() {
        s.len() as int
    } else if is_whitespace(s[i]) {
        first_kept(s, i + 1)
    } else {
        i
    }
}

/// One past the last character before `j`, and not before `low`, that is not
/// white space; `low` when there is none.
pub open spec fn last_kept_end(s: Seq<char>, j: int, low: int) -> int
    decreases j - low,
{
    if j <= low {
        low
    } else if is_whitespace(s[j - 1]) {
        last_kept_end(s, j - 1, low)
    } else {
        j
    }
}

/// `s` without its leading and trailing white space (`str::trim`).
pub open spec fn trimmed(s: Seq<char>) -> Seq<char> {
    let a = first_kept(s, 0);
    s.subrange(a, last_kept_end(s, s.len() as int, a))
}

proof fn lemma_first_kept_bounds(s: Seq<char>, i: int)
    requires
        0 <= i <= s.len(),
    ensures
        i <= first_kept(s, i) <= s.len(),
        first_kept(s, i) < s.len() ==> !is_whitespace(s[first_kept(s, i)]),
        forall|k: int| i <= k < first_kept(s, i) ==> is_whitespace(#[trigger] s[k]),
    decreases s.len() - i,
{
    if i < s.len() && is_whitespace(s[i]) {
        lemma_first_kept_bounds(s, i + 1);
    }
}

proof fn lemma_last_kept_bounds(s: Seq<char>, j: int, low: int)
    requires
        0 <= low <= j <= s.len(),
    ensures
        low <= last_kept_end(s, j, low) <= j,
        last_kept_end(s, j, low) > low ==> !is_whitespace(s[last_kept_end(s, j, low) - 1]),
        forall|k: int| last_kept_end(s, j, low) <= k < j ==> is_whitespace(#[trigger] s[k]),
    decreases j - low,
{
    if j > low && is_whitespace(s[j - 1]) {
        lemma_last_kept_bounds(s, j - 1, low);
    }
}

/// Trimming leaves a text that begins and ends with a kept character, and
/// drops only white space around it.
pub proof fn lemma_trimmed_shape(s: Seq<char>)
    ensures
        trimmed(s).len() > 0 ==> !is_whitespace(trimmed(s)[0]) && !is_whitespace(
            trimmed(s)[trimmed(s).len() - 1],
        ),
        trimmed(s).len() <= s.len(),
{
    lemma_first_kept_bounds(s, 0);
    lemma_last_kept_bounds(s, s.len() as int, first_kept(s, 0));
}

/// Trimming a trimmed text changes nothing.
pub proof fn lemma_trimmed_idempotent(s: Seq<char>)
    ensures
        trimmed(trimmed(s)) == trimmed(s),
{
    let t = trimmed(s);
    lemma_trimmed_shape(s);
    if t.len() > 0 {
        assert(first_kept(t, 0) == 0);
        assert(last_kept_end(t, t.len() as int, 0) == t.len());
    } else {
        assert(first_kept(t, 0) == 0);
    }
    assert(trimmed(t) =~= t);
}

/// `s` without its leading and trailing white space.
pub fn trim(s: &str) -> (r: String)
    ensures
        r@ == trimmed(s@),
{
    let c = chars_of(s);
    let n = c.len();
    let mut a: usize = 0;
    while a < n && whitespace(c[a])
        invariant
            c@ == s@,
            n == c@.len(),
            a <= n,
            first_kept(s@, 0) == first_kept(s@, a as int),
        decreases n - a,
    {
        a = a + 1;
    }
    let mut b: usize = n;
    while b > a && whitespace(c[b - 1])
        invariant
            c@ == s@,
            n == c@.len(),
            a <= b <= n,
            first_kept(s@, 0) == a,
            last_kept_end(s@, n as int, a as int) == last_kept_end(s@, b as int, a as int),
        decreases b,
    {
        b = b - 1;
    }
    string_from_range(&c, a, b)
}

/// The lowercase hexadecimal digit of `n`, for `n < 16`.
pub open spec fn hex_digit(n: int) -> char {
    if n < 10 {
        (n + 48) as char
    } else {
        (n + 87) as char
    }
}

/// The last `count` hexadecimal digits of `v`, most significant first.
pub open spec fn hex_digits(v: nat, count: nat) -> Seq<char>
    decreases count,
{
    if count == 0 {
        seq![]
    } else {
        hex_digits(v / 16, (count - 1) as nat).push(hex_digit((v % 16) as int))
    }
}

/// The lowercase hexadecimal rendering of a byte string, two digits per byte.
pub open spec fn hex_of(bytes: Seq<u8>) -> Seq<char>
    decreases bytes.len(),
{
    if bytes.len() == 0 {
        seq![]
    } else {
        hex_of(bytes.drop_last()) + hex_digits(bytes.last() as nat, 2)
    }
}

/// The lowercase hexadecimal digit of `n`.
fn hex_char(n: u8) -> (c: char)
    requires
        n < 16,
    ensures
        c == hex_digit(n as int),
{
    if n < 10 {
        (n + 48) as char
    } else {
        (n + 87) as char
    }
}

proof fn lemma_byte_digits(b: u8)
    ensures
        hex_digits(b as nat, 2) =~= seq![hex_digit((b / 16) as int), hex_digit((b % 16) as int)],
{
    let v = b as nat;
    assert((v / 16) % 16 == v / 16);
    assert(hex_digits(v / 16 / 16, 0) =~= seq![]);
    assert(hex_digits(v / 16, 1) =~= seq![hex_digit(((v / 16) % 16) as int)]);
}

/// Lowercase hexadecimal of `bytes`, as `format!("{b:02x}")` gives each byte.
pub fn to_hex(bytes: &[u8]) -> (s: String)
    ensures
        s@ == hex_of(bytes@),
{
    let mut s = String::new();
    let mut i: usize = 0;
    while i < bytes.len()
        invariant
            i <= bytes@.len(),
            s@ == hex_of(bytes@.subrange(0, i as int)),
        decreases bytes@.len() - i,
    {
        let b = bytes[i];
        let ghost before = s@;
        push_char(&mut s, hex_char(b / 16));
        push_char(&mut s, hex_char(b % 16));
        proof {
            let p = bytes@.subrange(0, i + 1);
            assert(p.drop_last() =~= bytes@.subrange(0, i as int));
            assert(p.last() == b);
            lemma_byte_digits(b);
            assert(s@ =~= before + hex_digits(b as nat, 2));
        }
        i = i + 1;
    }
    assert(bytes@.subrange(0, bytes@.len() as int) =~= bytes@);
    s
}

/// The hyphenated lowercase rendering of a UUID held as its 128-bit value,
/// `xxxxxxxx-xxxx-xxxx-xxxx-xxxxxxxxxxxx`, most significant digit first.
pub open spec fn uuid_text(id: u128) -> Seq<char> {
    let d = hex_digits(id as nat, 32);
    d.subrange(0, 8) + seq!['-'] + d.subrange(8, 12) + seq!['-'] + d.subrange(12, 16) + seq!['-']
        + d.subrange(16, 20) + seq!['-'] + d.subrange(20, 32)
}

/// 16 to the power `n`.
pub open spec fn pow16(n: nat) -> nat
    decreases n,
{
    if n == 0 {
        1
    } else {
        16 * pow16((n - 1) as nat)
    }
}

proof fn lemma_hex_digits_len(v: nat, n: nat)
    ensures
        hex_digits(v, n).len() == n,
    decreases n,
{
    if n > 0 {
        lemma_hex_digits_len(v / 16, (n - 1) as nat);
    }
}

proof fn lemma_hex_digit_injective(x: int, y: int)
    requires
        0 <= x < 16,
        0 <= y < 16,
        hex_digit(x) == hex_digit(y),
    ensures
        x == y,
{
    let cx = if x < 10 { x + 48 } else { x + 87 };
    let cy = if y < 10 { y + 48 } else { y + 87 };
    assert(hex_digit(x) as int == cx);
    assert(hex_digit(y) as int == cy);
}

proof fn lemma_hex_digits_injective(a: nat, b: nat, n: nat)
    requires
        a < pow16(n),
        b < pow16(n),
        hex_digits(a, n) == hex_digits(b, n),
    ensures
        a == b,
    decreases n,
{
    if n == 0 {
    } else {
        let m = (n - 1) as nat;
        lemma_hex_digits_len(a / 16, m);
        lemma_hex_digits_len(b / 16, m);
        assert(hex_digits(a, n) == hex_digits(a / 16, m).push(hex_digit((a % 16) as int)));
        assert(hex_digits(b, n) == hex_digits(b / 16, m).push(hex_digit((b % 16) as int)));
        assert(hex_digits(a, n).last() == hex_digit((a % 16) as int));
        assert(hex_digits(b, n).last() == hex_digit((b % 16) as int));
        assert(hex_digits(a, n).drop_last() =~= hex_digits(a / 16, m));
        assert(hex_digits(b, n).drop_last() =~= hex_digits(b / 16, m));
        let p = pow16(m);
        assert(a / 16 < p) by (nonlinear_arith)
            requires
                a < 16 * p,
        ;
        assert(b / 16 < p) by (nonlinear_arith)
            requires
                b < 16 * p,
        ;
        lemma_hex_digits_injective(a / 16, b / 16, m);
        lemma_hex_digit_injective((a % 16) as int, (b % 16) as int);
    }
}

/// The rendering of a UUID is 36 characters long.
pub proof fn lemma_uuid_text_len(id: u128)
    ensures
        uuid_text(id).len() == 36,
{
    lemma_hex_digits_len(id as nat, 32);
}

/// Distinct UUIDs render to distinct texts.
pub proof fn lemma_uuid_text_injective(a: u128, b: u128)
    requires
        uuid_text(a) == uuid_text(b),
    ensures
        a == b,
{
    let da = hex_digits(a as nat, 32);
    let db = hex_digits(b as nat, 32);
    lemma_hex_digits_len(a as nat, 32);
    lemma_hex_digits_len(b as nat, 32);
    let ta = uuid_text(a);
    let tb = uuid_text(b);
    assert forall|k: int| 0 <= k < 32 implies da[k] == db[k] by {
        let pos = if k < 8 {
            k
        } else if k < 12 {
            k + 1
        } else if k < 16 {
            k + 2
        } else if k < 20 {
            k + 3
        } else {
            k + 4
        };
        assert(ta[pos] == da[k]);
        assert(tb[pos] == db[k]);
    }
    assert(da =~= db);
    reveal_with_fuel(pow16, 33);
    assert(pow16(32) == 0x1_0000_0000_0000_0000_0000_0000_0000_0000nat);
    lemma_hex_digits_injective(a as nat, b as nat, 32);
}

/// The last `count` hexadecimal digits of `v`, most significant first.
fn hex_digits_of(v: u128, count: usize) -> (d: Vec<char>)
    ensures
        d@ == hex_digits(v as nat, count as nat),
    decreases count,
{
    if count == 0 {
        Vec::new()
    } else {
        let mut d = hex_digits_of(v / 16, count - 1);
        let low: u8 = (v % 16) as u8;
        d.push(hex_char(low));
        d
    }
}

/// The hyphenated lowercase rendering of a UUID, as `uuid::Uuid` displays
/// the UUID whose 128-bit value is `id`.
pub fn uuid_string(id: u128) -> (s: String)
    ensures
        s@ == uuid_text(id),
{
    let d = hex_digits_of(id, 32);
    proof {
        lemma_hex_digits_len(id as nat, 32);
    }
    let mut s = string_from_range(&d, 0, 8);
    push_char(&mut s, '-');
    let part = string_from_range(&d, 8, 12);
    s.append(part.as_str());
    push_char(&mut s, '-');
    let part = string_from_range(&d, 12, 16);
    s.append(part.as_str());
    push_char(&mut s, '-');
    let part = string_from_range(&d, 16, 20);
    s.append(part.as_str());
    push_char(&mut s, '-');
    let part = string_from_range(&d, 20, 32);
    s.append(part.as_str());
    assert(s@ =~= uuid_text(id));
    s
}

} // verus!
