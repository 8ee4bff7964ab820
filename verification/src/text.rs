//! Character-level text helpers shared by the rest of the library.
//!
//! Strings are reasoned about through their view, a `Seq<char>`.
use vstd::prelude::*;

verus! {

/// The characters of a string slice, in order.
pub fn chars_of(s: &str) -> (v: Vec<char>)
    ensures
        v@ == s@,
{
    let mut v: Vec<char> = Vec::new();
    for c in it: s.chars()
        invariant
            it.seq() == s@,
            v@ == it.seq().take(it.index() as int),
    {
        v.push(c);
    }
    v
}

/// Collects characters into a `String` (std's `FromIterator<char>` for `String`),
/// which appends them in order.
#[verifier::external_body]
pub(crate) fn string_of(v: &Vec<char>) -> (s: String)
    ensures
        s@ == v@,
{
    String::from_iter(v.iter())
}

/// Unicode `White_Space`, the property that `char::is_whitespace` tests.
pub open spec fn is_ws(c: char) -> bool {
    let u = c as u32;
    ||| 0x09 <= u <= 0x0D
    ||| u == 0x20
    ||| u == 0x85
    ||| u == 0xA0
    ||| u == 0x1680
    ||| 0x2000 <= u <= 0x200A
    ||| u == 0x2028
    ||| u == 0x2029
    ||| u == 0x202F
    ||| u == 0x205F
    ||| u == 0x3000
}

pub fn is_whitespace(c: char) -> (b: bool)
    ensures
        b == is_ws(c),
{
    let u = c as u32;
    (0x09 <= u && u <= 0x0D) || u == 0x20 || u == 0x85 || u == 0xA0 || u == 0x1680 || (0x2000
        <= u && u <= 0x200A) || u == 0x2028 || u == 0x2029 || u == 0x202F || u == 0x205F || u
        == 0x3000
}

pub open spec fn is_ascii_char(c: char) -> bool {
    (c as u32) < 128
}

pub open spec fn all_ascii(s: Seq<char>) -> bool {
    forall|i: int| 0 <= i < s.len() ==> is_ascii_char(#[trigger] s[i])
}

/// `s` with its leading white space removed.
pub open spec fn trim_start(s: Seq<char>) -> Seq<char>
    decreases s.len(),
{
    if s.len() > 0 && is_ws(s[0]) {
        trim_start(s.drop_first())
    } else {
        s
    }
}

/// `s` with its trailing white space removed.
pub open spec fn trim_end(s: Seq<char>) -> Seq<char>
    decreases s.len(),
{
    if s.len() > 0 && is_ws(s.last()) {
        trim_end(s.drop_last())
    } else {
        s
    }
}

/// `str::trim`: white space removed at both ends.
pub open spec fn trim(s: Seq<char>) -> Seq<char> {
    trim_end(trim_start(s))
}

proof fn lemma_trim_start_ascii(s: Seq<char>)
    requires
        all_ascii(s),
    ensures
        all_ascii(trim_start(s)),
    decreases s.len(),
{
    if s.len() > 0 && is_ws(s[0]) {
        assert forall|i: int| 0 <= i < s.drop_first().len() implies is_ascii_char(
            #[trigger] s.drop_first()[i],
        ) by {
            assert(s.drop_first()[i] == s[i + 1]);
        }
        lemma_trim_start_ascii(s.drop_first());
    }
}

proof fn lemma_trim_end_ascii(s: Seq<char>)
    requires
        all_ascii(s),
    ensures
        all_ascii(trim_end(s)),
    decreases s.len(),
{
    if s.len() > 0 && is_ws(s.last()) {
        assert forall|i: int| 0 <= i < s.drop_last().len() implies is_ascii_char(
            #[trigger] s.drop_last()[i],
        ) by {
            assert(s.drop_last()[i] == s[i]);
        }
        lemma_trim_end_ascii(s.drop_last());
    }
}

/// Trimming an ASCII text leaves ASCII text.
pub proof fn lemma_trim_ascii(s: Seq<char>)
    requires
        all_ascii(s),
    ensures
        all_ascii(trim(s)),
{
    lemma_trim_start_ascii(s);
    lemma_trim_end_ascii(trim_start(s));
}

/// `trim_start(s)` is the suffix of `s` that starts at the first character that is not
/// white space.
pub proof fn lemma_trim_start_skip(s: Seq<char>, k: int)
    requires
        0 <= k <= s.len(),
        forall|i: int| 0 <= i < k ==> is_ws(#[trigger] s[i]),
    ensures
        trim_start(s) == trim_start(s.skip(k)),
    decreases k,
{
    if k > 0 {
        assert(s.skip(1) =~= s.drop_first());
        lemma_trim_start_skip(s.drop_first(), k - 1);
        assert(s.drop_first().skip(k - 1) =~= s.skip(k));
    } else {
        assert(s.skip(0) =~= s);
    }
}

/// `trim_end(s)` is the prefix of `s` that ends at the last character that is not
/// white space.
pub proof fn lemma_trim_end_take(s: Seq<char>, k: int)
    requires
        0 <= k <= s.len(),
        forall|i: int| k <= i < s.len() ==> is_ws(#[trigger] s[i]),
    ensures
        trim_end(s) == trim_end(s.take(k)),
    decreases s.len() - k,
{
    if k < s.len() {
        lemma_trim_end_take(s.drop_last(), k);
        assert(s.drop_last().take(k) =~= s.take(k));
    } else {
        assert(s.take(k) =~= s);
    }
}

/// `str::trim`, computed on characters.
pub fn trim_chars(s: &Vec<char>) -> (t: Vec<char>)
    ensures
        t@ == trim(s@),
{
    let n = s.len();
    let mut start: usize = 0;
    while start < n && is_whitespace(s[start])
        invariant
            n == s@.len(),
            start <= n,
            forall|i: int| 0 <= i < start ==> is_ws(#[trigger] s@[i]),
        decreases n - start,
    {
        start = start + 1;
    }
    proof {
        lemma_trim_start_skip(s@, start as int);
    }
    let ghost rest = s@.skip(start as int);
    assert(start == n || !is_ws(rest[0]));
    assert(trim_start(s@) == rest);
    let mut end: usize = n;
    while end > start && is_whitespace(s[end - 1])
        invariant
            n == s@.len(),
            start <= end <= n,
            forall|i: int| end <= i < n ==> is_ws(#[trigger] s@[i]),
        decreases end,
    {
        end = end - 1;
    }
    let mut t: Vec<char> = Vec::new();
    let mut i: usize = start;
    while i < end
        invariant
            start <= i <= end <= n,
            n == s@.len(),
            t@ == s@.subrange(start as int, i as int),
        decreases end - i,
    {
        t.push(s[i]);
        i = i + 1;
    }
    proof {
        let k = end - start;
        assert forall|j: int| k <= j < rest.len() implies is_ws(#[trigger] rest[j]) by {
            assert(rest[j] == s@[j + start]);
        }
        lemma_trim_end_take(rest, k);
        assert(rest.take(k) =~= t@);
        if k > 0 {
            assert(t@.last() == s@[end - 1]);
        }
    }
    t
}

/// The words of `s` (its maximal runs of characters that are not white space) joined by
/// single spaces: what `s.split_whitespace().collect::<Vec<_>>().join(" ")` gives.
pub open spec fn squeeze(s: Seq<char>) -> Seq<char>
    decreases s.len(),
{
    if s.len() == 0 {
        Seq::empty()
    } else {
        let p = s.drop_last();
        let c = s.last();
        let q = squeeze(p);
        if is_ws(c) {
            q
        } else if q.len() > 0 && is_ws(p.last()) {
            q.push(' ').push(c)
        } else {
            q.push(c)
        }
    }
}

/// A text in which the only white space is single spaces between words.
pub open spec fn is_squeezed(t: Seq<char>) -> bool {
    &&& forall|i: int| 0 <= i < t.len() ==> #[trigger] t[i] == ' ' || !is_ws(t[i])
    &&& t.len() > 0 ==> t[0] != ' ' && t.last() != ' '
    &&& forall|i: int| 0 <= i < t.len() - 1 ==> !(#[trigger] t[i] == ' ' && t[i + 1] == ' ')
}

pub proof fn lemma_squeeze_is_squeezed(s: Seq<char>)
    ensures
        is_squeezed(squeeze(s)),
        squeeze(s).len() > 0 ==> !is_ws(squeeze(s).last()),
    decreases s.len(),
{
    if s.len() > 0 {
        lemma_squeeze_is_squeezed(s.drop_last());
        let q = squeeze(s.drop_last());
        let r = squeeze(s);
        if !is_ws(s.last()) {
            if q.len() > 0 && is_ws(s.drop_last().last()) {
                assert(r =~= q.push(' ').push(s.last()));
                assert forall|i: int| 0 <= i < r.len() - 1 implies !(#[trigger] r[i] == ' ' && r[
                    i + 1] == ' ') by {
                    if i < q.len() - 1 {
                        assert(r[i] == q[i] && r[i + 1] == q[i + 1]);
                    }
                }
                assert forall|i: int| 0 <= i < r.len() implies #[trigger] r[i] == ' ' || !is_ws(
                    r[i]) by {
                    if i < q.len() {
                        assert(r[i] == q[i]);
                    }
                }
            } else {
                assert(r =~= q.push(s.last()));
                assert forall|i: int| 0 <= i < r.len() - 1 implies !(#[trigger] r[i] == ' ' && r[
                    i + 1] == ' ') by {
                    if i < q.len() - 1 {
                        assert(r[i] == q[i] && r[i + 1] == q[i + 1]);
                    }
                }
                assert forall|i: int| 0 <= i < r.len() implies #[trigger] r[i] == ' ' || !is_ws(
                    r[i]) by {
                    if i < q.len() {
                        assert(r[i] == q[i]);
                    }
                }
            }
        }
    }
}

/// A text that is already squeezed comes back unchanged.
pub proof fn lemma_squeezed_fixpoint(t: Seq<char>)
    requires
        is_squeezed(t),
    ensures
        squeeze(t) == t,
    decreases t.len(),
{
    if t.len() > 0 {
        let p = t.drop_last();
        let c = t.last();
        assert(!is_ws(c)) by {
            assert(t[t.len() - 1] == c);
        }
        if p.len() > 0 && p.last() == ' ' {
            let pp = p.drop_last();
            assert(pp.len() > 0) by {
                if pp.len() == 0 {
                    assert(t[0] == ' ');
                }
            }
            assert(pp.last() != ' ') by {
                assert(t[t.len() - 3] == pp.last() && t[t.len() - 2] == ' ');
            }
            assert(is_squeezed(pp)) by {
                assert forall|i: int| 0 <= i < pp.len() implies #[trigger] pp[i] == ' ' || !is_ws(
                    pp[i]) by {
                    assert(pp[i] == t[i]);
                }
                assert forall|i: int| 0 <= i < pp.len() - 1 implies !(#[trigger] pp[i] == ' '
                    && pp[i + 1] == ' ') by {
                    assert(pp[i] == t[i] && pp[i + 1] == t[i + 1]);
                }
                assert(pp[0] == t[0]);
            }
            lemma_squeezed_fixpoint(pp);
            assert(is_ws(p.last()));
            assert(squeeze(p) == squeeze(pp));
            assert(t =~= pp.push(' ').push(c));
            assert(t.drop_last() == p);
            assert(squeeze(t) == squeeze(p).push(' ').push(c));
        } else {
            if p.len() > 0 {
                assert(is_squeezed(p)) by {
                    assert forall|i: int| 0 <= i < p.len() implies #[trigger] p[i] == ' '
                        || !is_ws(p[i]) by {
                        assert(p[i] == t[i]);
                    }
                    assert forall|i: int| 0 <= i < p.len() - 1 implies !(#[trigger] p[i] == ' '
                        && p[i + 1] == ' ') by {
                        assert(p[i] == t[i] && p[i + 1] == t[i + 1]);
                    }
                    assert(p[0] == t[0]);
                }
                lemma_squeezed_fixpoint(p);
                assert(!is_ws(p.last())) by {
                    assert(p.last() == t[t.len() - 2]);
                }
            }
            assert(t =~= p.push(c));
            assert(t.drop_last() == p);
            assert(squeeze(t) == squeeze(p).push(c));
        }
    }
}

/// A squeezed text has nothing to trim.
pub proof fn lemma_squeezed_trim(t: Seq<char>)
    requires
        is_squeezed(t),
    ensures
        trim(t) == t,
{
    if t.len() > 0 {
        assert(!is_ws(t[0]) && !is_ws(t[t.len() - 1]));
    }
    assert(trim_start(t) == t);
}

/// Squeezing keeps a character property that the space has.
pub proof fn lemma_squeeze_chars(s: Seq<char>)
    ensures
        forall|i: int|
            0 <= i < squeeze(s).len() ==> #[trigger] squeeze(s)[i] == ' ' || s.contains(
                squeeze(s)[i],
            ),
    decreases s.len(),
{
    if s.len() > 0 {
        let p = s.drop_last();
        lemma_squeeze_chars(p);
        let q = squeeze(p);
        let r = squeeze(s);
        assert forall|i: int| 0 <= i < r.len() implies #[trigger] r[i] == ' ' || s.contains(
            r[i],
        ) by {
            if i < q.len() {
                assert(r[i] == q[i]);
                if q[i] != ' ' {
                    let k = choose|k: int| 0 <= k < p.len() && p[k] == q[i];
                    assert(s[k] == q[i]);
                }
            } else if r[i] != ' ' {
                assert(r[i] == s.last());
                assert(s[s.len() - 1] == r[i]);
            }
        }
    }
}

/// `s.split_whitespace().collect::<Vec<_>>().join(" ")`, computed on characters.
pub fn squeeze_chars(s: &Vec<char>) -> (t: Vec<char>)
    ensures
        t@ == squeeze(s@),
{
    let mut t: Vec<char> = Vec::new();
    let mut i: usize = 0;
    while i < s.len()
        invariant
            i <= s@.len(),
            t@ == squeeze(s@.take(i as int)),
        decreases s@.len() - i,
    {
        let c = s[i];
        let ghost p = s@.take(i as int);
        assert(s@.take(i + 1).drop_last() =~= p);
        if !is_whitespace(c) {
            if t.len() > 0 && is_whitespace(s[i - 1]) {
                t.push(' ');
            }
            t.push(c);
        }
        i = i + 1;
    }
    assert(s@.take(s@.len() as int) =~= s@);
    t
}

/// The ASCII characters of `s` other than `*`, in order.
pub open spec fn keep_plain(s: Seq<char>) -> Seq<char>
    decreases s.len(),
{
    if s.len() == 0 {
        Seq::empty()
    } else {
        let q = keep_plain(s.drop_last());
        if is_ascii_char(s.last()) && s.last() != '*' {
            q.push(s.last())
        } else {
            q
        }
    }
}

/// Every character is ASCII and none is `*`.
pub open spec fn is_plain(s: Seq<char>) -> bool {
    forall|i: int| 0 <= i < s.len() ==> is_ascii_char(#[trigger] s[i]) && s[i] != '*'
}

pub proof fn lemma_keep_plain(s: Seq<char>)
    ensures
        is_plain(keep_plain(s)),
        is_plain(s) ==> keep_plain(s) == s,
    decreases s.len(),
{
    if s.len() > 0 {
        lemma_keep_plain(s.drop_last());
        let q = keep_plain(s.drop_last());
        assert forall|i: int| 0 <= i < keep_plain(s).len() implies is_ascii_char(
            #[trigger] keep_plain(s)[i],
        ) && keep_plain(s)[i] != '*' by {
            if i < q.len() {
                assert(keep_plain(s)[i] == q[i]);
            }
        }
        if is_plain(s) {
            assert(is_plain(s.drop_last())) by {
                assert forall|i: int| 0 <= i < s.drop_last().len() implies is_ascii_char(
                    #[trigger] s.drop_last()[i],
                ) && s.drop_last()[i] != '*' by {
                    assert(s.drop_last()[i] == s[i]);
                }
            }
            assert(is_ascii_char(s[s.len() - 1]) && s[s.len() - 1] != '*');
            assert(s.drop_last().push(s.last()) =~= s);
        }
    }
}

/// Squeezing a plain text leaves it plain.
pub proof fn lemma_squeeze_plain(s: Seq<char>)
    requires
        is_plain(s),
    ensures
        is_plain(squeeze(s)),
{
    lemma_squeeze_chars(s);
    assert forall|i: int| 0 <= i < squeeze(s).len() implies is_ascii_char(
        #[trigger] squeeze(s)[i],
    ) && squeeze(s)[i] != '*' by {
        if squeeze(s)[i] != ' ' {
            let k = choose|k: int| 0 <= k < s.len() && s[k] == squeeze(s)[i];
            assert(is_ascii_char(s[k]) && s[k] != '*');
        }
    }
}

/// Keeps the ASCII characters of `s` other than `*`.
pub fn keep_plain_chars(s: &Vec<char>) -> (t: Vec<char>)
    ensures
        t@ == keep_plain(s@),
{
    let mut t: Vec<char> = Vec::new();
    let mut i: usize = 0;
    while i < s.len()
        invariant
            i <= s@.len(),
            t@ == keep_plain(s@.take(i as int)),
        decreases s@.len() - i,
    {
        let c = s[i];
        assert(s@.take(i + 1).drop_last() =~= s@.take(i as int));
        if (c as u32) < 128 && c != '*' {
            t.push(c);
        }
        i = i + 1;
    }
    assert(s@.take(s@.len() as int) =~= s@);
    t
}

/// The decimal digit for `d < 10`.
pub open spec fn digit(d: int) -> char {
    if d == 0 { '0' }
    else if d == 1 { '1' }
    else if d == 2 { '2' }
    else if d == 3 { '3' }
    else if d == 4 { '4' }
    else if d == 5 { '5' }
    else if d == 6 { '6' }
    else if d == 7 { '7' }
    else if d == 8 { '8' }
    else { '9' }
}

/// The decimal digits of `n`, most significant first, without leading zeros.
pub open spec fn decimal(n: nat) -> Seq<char>
    decreases n,
{
    if n < 10 {
        seq![digit(n as int)]
    } else {
        decimal(n / 10).push(digit((n % 10) as int))
    }
}

/// The magnitude of `n`.
pub open spec fn magnitude(n: int) -> nat {
    if n < 0 { (-n) as nat } else { n as nat }
}

/// `n` as `Display` writes it: a minus sign for negative values, then its decimal digits.
pub open spec fn signed_decimal(n: int) -> Seq<char> {
    if n < 0 { seq!['-'] + decimal(magnitude(n)) } else { decimal(magnitude(n)) }
}

/// `n` as the format `{:0w$}` writes it: sign first, then zeros up to a total width of `w`.
pub open spec fn zero_padded(n: int, w: nat) -> Seq<char> {
    let sign: Seq<char> = if n < 0 { seq!['-'] } else { Seq::empty() };
    let digits = decimal(magnitude(n));
    let used = sign.len() + digits.len();
    let zeros = if used < w { (w - used) as nat } else { 0nat };
    sign + Seq::new(zeros, |_i: int| '0') + digits
}

fn digit_char(d: u64) -> (c: char)
    requires
        d < 10,
    ensures
        c == digit(d as int),
{
    if d == 0 { '0' }
    else if d == 1 { '1' }
    else if d == 2 { '2' }
    else if d == 3 { '3' }
    else if d == 4 { '4' }
    else if d == 5 { '5' }
    else if d == 6 { '6' }
    else if d == 7 { '7' }
    else if d == 8 { '8' }
    else { '9' }
}

/// Appends the decimal digits of `n`.
pub fn push_decimal(out: &mut Vec<char>, n: u64)
    ensures
        final(out)@ == old(out)@ + decimal(n as nat),
    decreases n,
{
    if n >= 10 {
        push_decimal(out, n / 10);
    }
    out.push(digit_char(n % 10));
    proof {
        if n >= 10 {
            assert(old(out)@ + decimal(n as nat) =~= old(out)@ + decimal((n / 10) as nat) + seq![
                digit((n % 10) as int)]);
        } else {
            assert(decimal(n as nat) =~= seq![digit(n as int)]);
        }
    }
}

/// The magnitude of an `i64`, which always fits in a `u64`.
pub fn magnitude_u64(n: i64) -> (m: u64)
    ensures
        m as nat == magnitude(n as int),
{
    if n < 0 {
        let k: i64 = -(n + 1);
        (k as u64) + 1
    } else {
        n as u64
    }
}

/// Appends `n` as `Display` writes it.
pub fn push_signed(out: &mut Vec<char>, n: i64)
    ensures
        final(out)@ == old(out)@ + signed_decimal(n as int),
{
    if n < 0 {
        out.push('-');
    }
    let m = magnitude_u64(n);
    push_decimal(out, m);
    proof {
        if n < 0 {
            assert(old(out)@ + signed_decimal(n as int) =~= old(out)@.push('-') + decimal(
                m as nat));
        }
    }
}

/// Appends `n` as `{:0w$}` writes it.
pub fn push_zero_padded(out: &mut Vec<char>, n: i64, w: usize)
    ensures
        final(out)@ == old(out)@ + zero_padded(n as int, w as nat),
{
    let mut digits: Vec<char> = Vec::new();
    let m = magnitude_u64(n);
    push_decimal(&mut digits, m);
    assert(digits@ =~= decimal(magnitude(n as int)));
    let sign_len: usize = if n < 0 { 1 } else { 0 };
    let zeros: usize = if w > sign_len && w - sign_len > digits.len() {
        w - sign_len - digits.len()
    } else {
        0
    };
    let ghost before = out@;
    if n < 0 {
        out.push('-');
    }
    let mut i: usize = 0;
    while i < zeros
        invariant
            i <= zeros,
            out@ == before + (if n < 0 { seq!['-'] } else { Seq::<char>::empty() }) + Seq::new(
                i as nat,
                |_j: int| '0',
            ),
        decreases zeros - i,
    {
        out.push('0');
        i = i + 1;
    }
    let mut j: usize = 0;
    while j < digits.len()
        invariant
            j <= digits@.len(),
            out@ == before + (if n < 0 { seq!['-'] } else { Seq::<char>::empty() }) + Seq::new(
                zeros as nat,
                |_k: int| '0',
            ) + digits@.take(j as int),
        decreases digits@.len() - j,
    {
        out.push(digits[j]);
        j = j + 1;
    }
    assert(digits@.take(digits@.len() as int) =~= digits@);
    assert(out@ =~= before + zero_padded(n as int, w as nat));
}

/// `str::to_uppercase` from std, as a function of the text: Unicode upper-case mapping,
/// which may change the number of characters.
pub uninterp spec fn uppercase(s: Seq<char>) -> Seq<char>;

/// `str::to_uppercase` (std). Its result is named [`uppercase`]; nothing more is stated.
#[verifier::external_body]
pub(crate) fn to_uppercase(s: &str) -> (r: String)
    ensures
        r@ == uppercase(s@),
{
    s.to_uppercase()
}

/// `s` with every space replaced by `%`.
pub open spec fn spaces_to_wildcards(s: Seq<char>) -> Seq<char> {
    Seq::new(s.len(), |i: int| if s[i] == ' ' { '%' } else { s[i] })
}

/// `s.replace(' ', "%")`, computed on characters.
pub fn replace_spaces(s: &Vec<char>) -> (t: Vec<char>)
    ensures
        t@ == spaces_to_wildcards(s@),
{
    let mut t: Vec<char> = Vec::new();
    let mut i: usize = 0;
    while i < s.len()
        invariant
            i <= s@.len(),
            t@ =~= spaces_to_wildcards(s@.take(i as int)),
        decreases s@.len() - i,
    {
        if s[i] == ' ' {
            t.push('%');
        } else {
            t.push(s[i]);
        }
        i = i + 1;
    }
    assert(s@.take(s@.len() as int) =~= s@);
    t
}

/// Appends the characters of `s`.
pub fn push_all(out: &mut Vec<char>, s: &Vec<char>)
    ensures
        final(out)@ == old(out)@ + s@,
{
    let mut i: usize = 0;
    while i < s.len()
        invariant
            i <= s@.len(),
            out@ == old(out)@ + s@.take(i as int),
        decreases s@.len() - i,
    {
        out.push(s[i]);
        i = i + 1;
    }
    assert(s@.take(s@.len() as int) =~= s@);
}

/// The canonical decomposition (Unicode Normalization Form D) of a text, as
/// unicode-normalization computes it.
pub uninterp spec fn canonical_decomposition(s: Seq<char>) -> Seq<char>;

/// `UnicodeNormalization::nfd` of unicode-normalization, collected into a `String`.
/// Its result is named [`canonical_decomposition`]. The one fact stated besides: a text
/// of 7-bit ASCII comes back unchanged (the crate emits such characters as they are, and
/// they are starters, which are never reordered).
#[verifier::external_body]
pub(crate) fn nfd(s: &str) -> (r: String)
    ensures
        r@ == canonical_decomposition(s@),
        all_ascii(s@) ==> r@ == s@,
{
    unicode_normalization::UnicodeNormalization::nfd(s).collect()
}

/// `{:0w$}` writes at least `w` characters, and exactly `w` for a value whose sign and
/// digits fit in them.
pub proof fn lemma_zero_padded_len(n: int, w: nat)
    ensures
        zero_padded(n, w).len() >= w,
        (if n < 0 { 1int } else { 0int }) + decimal(magnitude(n)).len() <= w ==> zero_padded(
            n,
            w,
        ).len() == w,
{
}

} // verus!
