//! Verified text primitives for the small, fixed kernel file formats this
//! crate parses: character splitting, whitespace trimming, and decimal
//! conversion.

use vstd::prelude::*;

verus! {

/// Character-wise string equality.
pub fn str_eq(a: &str, b: &str) -> (r: bool)
    ensures
        r == (a@ == b@),
{
    let na = a.unicode_len();
    let nb = b.unicode_len();
    if na != nb {
        return false;
    }
    let mut i: usize = 0;
    while i < na
        invariant
            0 <= i <= na,
            na == a@.len(),
            na == b@.len(),
            forall|j: int| 0 <= j < i ==> a@[j] == b@[j],
        decreases na - i,
    {
        if a.get_char(i) != b.get_char(i) {
            return false;
        }
        i = i + 1;
    }
    proof {
        assert(a@ =~= b@);
    }
    true
}

/// The segments of `s` between occurrences of `sep`, in order; there is
/// always at least one segment, and a separator at either end contributes an
/// empty segment, as with `str::split`.
pub open spec fn spec_split(s: Seq<char>, sep: char) -> Seq<Seq<char>>
    decreases s.len(),
{
    if s.len() == 0 {
        seq![Seq::<char>::empty()]
    } else if s[0] == sep {
        seq![Seq::<char>::empty()] + spec_split(s.skip(1), sep)
    } else {
        let rest = spec_split(s.skip(1), sep);
        seq![seq![s[0]] + rest[0]] + rest.skip(1)
    }
}

pub proof fn lemma_split_len(s: Seq<char>, sep: char)
    ensures
        spec_split(s, sep).len() >= 1,
    decreases s.len(),
{
    if s.len() != 0 {
        lemma_split_len(s.skip(1), sep);
    }
}

/// A string free of the separator splits into the single segment that is the
/// string itself.
pub proof fn lemma_split_no_sep(s: Seq<char>, sep: char)
    requires
        forall|i: int| 0 <= i < s.len() ==> s[i] != sep,
    ensures
        spec_split(s, sep) == seq![s],
    decreases s.len(),
{
    if s.len() == 0 {
        assert(s =~= Seq::<char>::empty());
    } else {
        lemma_split_no_sep(s.skip(1), sep);
        lemma_split_len(s.skip(1), sep);
        assert(seq![s[0]] + s.skip(1) =~= s);
        assert(seq![s].skip(1) =~= Seq::<Seq<char>>::empty());
        assert(spec_split(s, sep) =~= seq![s]);
    }
}

/// Splitting at the first separator occurrence: the part before it is the
/// first segment, and the rest of the string splits into the rest of the
/// segments.
pub proof fn lemma_split_first_sep(s: Seq<char>, sep: char, k: int)
    requires
        0 <= k < s.len(),
        s[k] == sep,
        forall|i: int| 0 <= i < k ==> s[i] != sep,
    ensures
        spec_split(s, sep) == seq![s.take(k)] + spec_split(s.skip(k + 1), sep),
    decreases k,
{
    if k == 0 {
        assert(s.take(0) =~= Seq::<char>::empty());
    } else {
        let t = s.skip(1);
        assert(t[k - 1] == sep);
        assert(forall|i: int| 0 <= i < k - 1 ==> t[i] != sep);
        lemma_split_first_sep(t, sep, k - 1);
        lemma_split_len(t.skip(k), sep);
        assert(t.take(k - 1) =~= s.subrange(1, k));
        assert(t.skip(k) =~= s.skip(k + 1));
        let rest = spec_split(t, sep);
        assert(rest == seq![s.subrange(1, k)] + spec_split(s.skip(k + 1), sep));
        assert(rest[0] == s.subrange(1, k));
        assert(seq![s[0]] + rest[0] =~= s.take(k));
        assert(rest.skip(1) =~= spec_split(s.skip(k + 1), sep));
        assert(spec_split(s, sep) =~= seq![s.take(k)] + spec_split(s.skip(k + 1), sep));
    }
}

/// Splits `s` on single characters equal to `sep`, as `str::split` does.
pub fn split_char(s: &str, sep: char) -> (parts: Vec<String>)
    ensures
        parts.deep_view() == spec_split(s@, sep),
{
    let n = s.unicode_len();
    let mut parts: Vec<String> = Vec::new();
    let mut start: usize = 0;
    let mut i: usize = 0;
    proof {
        assert(s@.skip(0) =~= s@);
        assert(parts.deep_view() =~= Seq::<Seq<char>>::empty());
        assert(parts.deep_view() + spec_split(s@, sep) =~= spec_split(s@, sep));
    }
    while i < n
        invariant
            0 <= start <= i <= n,
            n == s@.len(),
            forall|j: int| start <= j < i ==> s@[j] != sep,
            spec_split(s@, sep) == parts.deep_view() + spec_split(
                s@.skip(start as int),
                sep,
            ),
        decreases n - i,
    {
        if s.get_char(i) == sep {
            let seg = s.substring_char(start, i).to_owned();
            proof {
                let tail = s@.skip(start as int);
                let k = i - start;
                assert(tail[k] == sep);
                assert(forall|j: int| 0 <= j < k ==> tail[j] != sep);
                lemma_split_first_sep(tail, sep, k);
                assert(tail.take(k) =~= s@.subrange(start as int, i as int));
                assert(tail.skip(k + 1) =~= s@.skip(i + 1));
            }
            let ghost old_parts = parts.deep_view();
            parts.push(seg);
            proof {
                assert(parts.deep_view() =~= old_parts.push(seg@));
                assert(parts.deep_view() + spec_split(s@.skip(i + 1), sep) =~= old_parts
                    + spec_split(s@.skip(start as int), sep));
            }
            start = i + 1;
        }
        i = i + 1;
    }
    let seg = s.substring_char(start, n).to_owned();
    proof {
        let tail = s@.skip(start as int);
        assert(forall|j: int| 0 <= j < tail.len() ==> tail[j] != sep);
        lemma_split_no_sep(tail, sep);
        assert(tail =~= s@.subrange(start as int, n as int));
    }
    let ghost old_parts = parts.deep_view();
    parts.push(seg);
    proof {
        assert(parts.deep_view() =~= old_parts.push(seg@));
        assert(parts.deep_view() =~= spec_split(s@, sep));
    }
    parts
}

/// Whitespace as it occurs in the kernel's tabular text files.
pub open spec fn is_ws(c: char) -> bool {
    c == ' ' || c == '\t' || c == '\n' || c == '\r'
}

pub open spec fn trim_front_spec(s: Seq<char>) -> Seq<char>
    decreases s.len(),
{
    if s.len() > 0 && is_ws(s[0]) {
        trim_front_spec(s.skip(1))
    } else {
        s
    }
}

pub open spec fn trim_back_spec(s: Seq<char>) -> Seq<char>
    decreases s.len(),
{
    if s.len() > 0 && is_ws(s.last()) {
        trim_back_spec(s.drop_last())
    } else {
        s
    }
}

/// `s` with leading and trailing whitespace removed.
pub open spec fn trim_spec(s: Seq<char>) -> Seq<char> {
    trim_back_spec(trim_front_spec(s))
}

proof fn lemma_trim_front(s: Seq<char>, a: int)
    requires
        0 <= a <= s.len(),
        forall|j: int| 0 <= j < a ==> is_ws(s[j]),
        a < s.len() ==> !is_ws(s[a]),
    ensures
        trim_front_spec(s) == s.skip(a),
    decreases a,
{
    if a == 0 {
        assert(s.skip(0) =~= s);
    } else {
        lemma_trim_front(s.skip(1), a - 1);
        assert(s.skip(1).skip(a - 1) =~= s.skip(a));
    }
}

proof fn lemma_trim_back(s: Seq<char>, b: int)
    requires
        0 <= b <= s.len(),
        forall|j: int| b <= j < s.len() ==> is_ws(s[j]),
        b > 0 ==> !is_ws(s[b - 1]),
    ensures
        trim_back_spec(s) == s.take(b),
    decreases s.len(),
{
    if b == s.len() {
        assert(s.take(b) =~= s);
    } else {
        assert(is_ws(s.last()));
        lemma_trim_back(s.drop_last(), b);
        assert(s.drop_last().take(b) =~= s.take(b));
    }
}

fn is_ws_char(c: char) -> (r: bool)
    ensures
        r == is_ws(c),
{
    c == ' ' || c == '\t' || c == '\n' || c == '\r'
}

/// Removes leading and trailing whitespace.
pub fn trim_str<'a>(s: &'a str) -> (r: &'a str)
    ensures
        r@ == trim_spec(s@),
{
    let n = s.unicode_len();
    let mut a: usize = 0;
    loop
        invariant_except_break
            0 <= a <= n,
            n == s@.len(),
            forall|j: int| 0 <= j < a ==> is_ws(s@[j]),
        ensures
            0 <= a <= n,
            n == s@.len(),
            forall|j: int| 0 <= j < a ==> is_ws(s@[j]),
            a < n ==> !is_ws(s@[a as int]),
        decreases n - a,
    {
        if a == n {
            break;
        }
        if !is_ws_char(s.get_char(a)) {
            break;
        }
        a = a + 1;
    }
    let mut b: usize = n;
    loop
        invariant_except_break
            a <= b <= n,
            n == s@.len(),
            forall|j: int| b <= j < n ==> is_ws(s@[j]),
        ensures
            a <= b <= n,
            forall|j: int| b <= j < n ==> is_ws(s@[j]),
            b > a ==> !is_ws(s@[b - 1]),
        decreases b,
    {
        if b == a {
            break;
        }
        if !is_ws_char(s.get_char(b - 1)) {
            break;
        }
        b = b - 1;
    }
    proof {
        lemma_trim_front(s@, a as int);
        let t = s@.skip(a as int);
        assert(forall|j: int| (b - a) <= j < t.len() ==> is_ws(t[j]));
        if b > a {
            assert(!is_ws(t[b - a - 1]));
        }
        lemma_trim_back(t, b - a);
        assert(t.take(b - a) =~= s@.subrange(a as int, b as int));
    }
    s.substring_char(a, b)
}

/// A decimal digit character.
pub open spec fn is_digit(c: char) -> bool {
    48 <= c as u32 <= 57
}

pub open spec fn digit_val(c: char) -> int {
    c as u32 - 48
}

pub open spec fn all_digits(s: Seq<char>) -> bool {
    forall|i: int| 0 <= i < s.len() ==> is_digit(s[i])
}

/// The value of a digit string, most significant digit first.
pub open spec fn dec_val(s: Seq<char>) -> int
    decreases s.len(),
{
    if s.len() == 0 {
        0
    } else {
        dec_val(s.drop_last()) * 10 + digit_val(s.last())
    }
}

proof fn lemma_dec_val_nonneg(s: Seq<char>)
    requires
        all_digits(s),
    ensures
        dec_val(s) >= 0,
    decreases s.len(),
{
    if s.len() > 0 {
        assert(all_digits(s.drop_last()));
        lemma_dec_val_nonneg(s.drop_last());
    }
}

proof fn lemma_dec_val_take_step(s: Seq<char>, k: int)
    requires
        0 <= k < s.len(),
    ensures
        dec_val(s.take(k + 1)) == dec_val(s.take(k)) * 10 + digit_val(s[k]),
{
    assert(s.take(k + 1).drop_last() =~= s.take(k));
    assert(s.take(k + 1).last() == s[k]);
}

proof fn lemma_dec_val_take_le(s: Seq<char>, k: int)
    requires
        all_digits(s),
        0 <= k <= s.len(),
    ensures
        dec_val(s.take(k)) <= dec_val(s),
    decreases s.len() - k,
{
    if k == s.len() {
        assert(s.take(k) =~= s);
    } else {
        lemma_dec_val_take_step(s, k);
        assert(all_digits(s.take(k)));
        lemma_dec_val_nonneg(s.take(k));
        lemma_dec_val_take_le(s, k + 1);
    }
}

/// What `str::parse::<u64>` accepts: an optional leading `+`, then one or
/// more decimal digits whose value fits in 64 bits.
pub open spec fn parse_u64_spec(s: Seq<char>) -> Option<u64> {
    let body = if s.len() > 0 && s[0] == '+' {
        s.skip(1)
    } else {
        s
    };
    if body.len() > 0 && all_digits(body) && dec_val(body) <= u64::MAX {
        Some(dec_val(body) as u64)
    } else {
        None
    }
}

/// Parses a decimal `u64`, accepting exactly what `str::parse::<u64>` does.
pub fn parse_u64(s: &str) -> (r: Option<u64>)
    ensures
        r == parse_u64_spec(s@),
{
    let n = s.unicode_len();
    let mut i: usize = 0;
    if n > 0 && s.get_char(0) == '+' {
        i = 1;
    }
    let ghost body = if s@.len() > 0 && s@[0] == '+' {
        s@.skip(1)
    } else {
        s@
    };
    proof {
        if i == 0 {
            assert(s@.skip(0) =~= s@);
        }
    }
    if i >= n {
        return None;
    }
    let mut acc: u64 = 0;
    let mut j: usize = i;
    proof {
        assert(body.take(0) =~= Seq::<char>::empty());
    }
    while j < n
        invariant
            i <= j <= n,
            n == s@.len(),
            body == s@.skip(i as int),
            body == (if s@.len() > 0 && s@[0] == '+' {
                s@.skip(1)
            } else {
                s@
            }),
            body.len() == n - i,
            all_digits(body.take(j - i)),
            acc == dec_val(body.take(j - i)),
        decreases n - j,
    {
        let u = s.get_char(j) as u32;
        if u < 48 || u > 57 {
            proof {
                assert(!is_digit(body[j - i]));
            }
            return None;
        }
        let d = (u - 48) as u64;
        proof {
            lemma_dec_val_take_step(body, j - i);
        }
        let next = match acc.checked_mul(10) {
            Some(m) => m.checked_add(d),
            None => None,
        };
        match next {
            Some(v) => {
                acc = v;
                proof {
                    assert(body.take(j - i + 1) =~= body.take(j - i).push(body[j - i]));
                }
            },
            None => {
                proof {
                    assert(dec_val(body.take(j - i + 1)) > u64::MAX);
                    if all_digits(body) {
                        lemma_dec_val_take_le(body, j - i + 1);
                    }
                }
                return None;
            },
        }
        j = j + 1;
    }
    proof {
        assert(body.take(n - i) =~= body);
    }
    Some(acc)
}

/// The canonical decimal rendering of `x`: no sign, no leading zero.
pub open spec fn dec_str(x: nat) -> Seq<char>
    decreases x,
{
    if x < 10 {
        seq![((48 + x) as u8) as char]
    } else {
        dec_str(x / 10).push(((48 + x % 10) as u8) as char)
    }
}

pub proof fn lemma_dec_str_value(x: nat)
    ensures
        dec_str(x).len() >= 1,
        all_digits(dec_str(x)),
        dec_val(dec_str(x)) == x,
    decreases x,
{
    if x < 10 {
        let s = dec_str(x);
        assert(s =~= seq![((48 + x) as u8) as char]);
        assert(s.drop_last() =~= Seq::<char>::empty());
        assert((48 + x) as u8 == 48 + x);
        assert((((48 + x) as u8) as char) as u32 == 48 + x);
        assert(digit_val(s.last()) == x);
        assert(dec_val(s) == dec_val(s.drop_last()) * 10 + digit_val(s.last()));
    } else {
        lemma_dec_str_value(x / 10);
        let s = dec_str(x);
        let prev = dec_str(x / 10);
        assert(s =~= prev.push(((48 + x % 10) as u8) as char));
        assert(s.drop_last() =~= prev);
        assert(digit_val(s.last()) == x % 10);
        assert(all_digits(s));
    }
}

/// Rendering a number in decimal and parsing it back yields the number:
/// the two directions of the decimal conversion agree on every value.
pub proof fn lemma_dec_str_parse_roundtrip(x: u64)
    ensures
        parse_u64_spec(dec_str(x as nat)) == Some(x),
{
    lemma_dec_str_value(x as nat);
    let s = dec_str(x as nat);
    assert(is_digit(s[0]));
    assert(s[0] != '+');
}

/// Relies on `String::push`: appends one character at the end.
#[verifier::external_body]
fn string_push(s: &mut String, c: char)
    ensures
        final(s)@ == old(s)@.push(c),
{
    s.push(c);
}

/// Renders `x` in decimal.
pub fn u64_to_string(x: u64) -> (r: String)
    ensures
        r@ == dec_str(x as nat),
    decreases x,
{
    let d = ((x % 10) as u8 + 48) as char;
    proof {
        assert((x % 10) < 10);
        assert(d == ((48 + (x as nat) % 10) as u8) as char);
    }
    if x < 10 {
        let mut s = String::new();
        string_push(&mut s, d);
        proof {
            assert(s@ =~= dec_str(x as nat));
        }
        s
    } else {
        let mut s = u64_to_string(x / 10);
        string_push(&mut s, d);
        proof {
            assert(s@ =~= dec_str(x as nat));
        }
        s
    }
}

/// Concatenates two strings.
pub fn concat2(a: &str, b: &str) -> (r: String)
    ensures
        r@ == a@ + b@,
{
    let mut s = a.to_owned();
    s.append(b);
    s
}

/// Concatenates three strings.
pub fn concat3(a: &str, b: &str, c: &str) -> (r: String)
    ensures
        r@ == a@ + b@ + c@,
{
    let mut s = a.to_owned();
    s.append(b);
    s.append(c);
    s
}

/// Whether the three-character mount-table separator `" - "` stands at
/// position `i` of `s`.
pub open spec fn is_sep_at(s: Seq<char>, i: int) -> bool {
    0 <= i && i + 3 <= s.len() && s[i] == ' ' && s[i + 1] == '-' && s[i + 2] == ' '
}

/// The first position at or after `i` where the separator stands.
pub open spec fn find_sep_from(s: Seq<char>, i: int) -> Option<int>
    decreases s.len() + 3 - i,
{
    if i < 0 || i + 3 > s.len() {
        None
    } else if is_sep_at(s, i) {
        Some(i)
    } else {
        find_sep_from(s, i + 1)
    }
}

/// Finds the first occurrence of the separator `" - "` at or after `from`.
pub fn find_sep(s: &str, from: usize) -> (r: Option<usize>)
    ensures
        match r {
            Some(i) => from <= i && is_sep_at(s@, i as int) && find_sep_from(s@, from as int)
                == Some(i as int),
            None => find_sep_from(s@, from as int) is None,
        },
{
    let n = s.unicode_len();
    let mut i: usize = from;
    loop
        invariant_except_break
            from <= i,
            n == s@.len(),
            find_sep_from(s@, from as int) == find_sep_from(s@, i as int),
        ensures
            from <= i,
            n == s@.len(),
            find_sep_from(s@, from as int) == find_sep_from(s@, i as int),
            i + 3 > n || is_sep_at(s@, i as int),
        decreases n + 3 - i,
    {
        if n < 3 || i > n - 3 {
            break;
        }
        if s.get_char(i) == ' ' && s.get_char(i + 1) == '-' && s.get_char(i + 2) == ' ' {
            break;
        }
        proof {
            assert(!is_sep_at(s@, i as int));
        }
        i = i + 1;
    }
    if n >= 3 && i <= n - 3 {
        proof {
            assert(find_sep_from(s@, i as int) == Some(i as int));
        }
        Some(i)
    } else {
        proof {
            assert(i + 3 > n);
            assert(find_sep_from(s@, i as int) is None);
        }
        None
    }
}

} // verus!
