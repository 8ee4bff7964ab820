//! Reading a secret from a key-value secrets store over HTTP: the request's address, and
//! what the answer leads to.
use vstd::prelude::*;
use crate::text::{chars_of, push_all, string_of};

verus! {

/// The path of the secrets engine's data, between the store's address and the secret's path.
pub const SECRET_DATA_PATH: &'static str = "/v1/secret/data/";

pub const FAILURE_HEAD: &'static str = "Vault request failed: status=";

pub const FAILURE_URL: &'static str = ", url=";

pub const FAILURE_BODY: &'static str = ", body=";

pub const MISSING_HEAD: &'static str = "Secret key '";

pub const MISSING_MIDDLE: &'static str = "' not found at '";

pub const MISSING_TAIL: &'static str = "'";

/// `s` without the copies of `c` at its end (`trim_end_matches`).
pub open spec fn strip_trailing(s: Seq<char>, c: char) -> Seq<char>
    decreases s.len(),
{
    if s.len() > 0 && s.last() == c {
        strip_trailing(s.drop_last(), c)
    } else {
        s
    }
}

/// `s` without the copies of `c` at its start (`trim_start_matches`).
pub open spec fn strip_leading(s: Seq<char>, c: char) -> Seq<char>
    decreases s.len(),
{
    if s.len() > 0 && s[0] == c {
        strip_leading(s.drop_first(), c)
    } else {
        s
    }
}

/// The address of the secret at `path` in the store at `vault_addr`.
pub open spec fn secret_url_of(vault_addr: Seq<char>, path: Seq<char>) -> Seq<char> {
    strip_trailing(vault_addr, '/') + SECRET_DATA_PATH@ + strip_leading(path, '/')
}

proof fn lemma_strip_trailing_take(s: Seq<char>, c: char, k: int)
    requires
        0 <= k <= s.len(),
        forall|i: int| k <= i < s.len() ==> #[trigger] s[i] == c,
    ensures
        strip_trailing(s, c) == strip_trailing(s.take(k), c),
    decreases s.len() - k,
{
    if k < s.len() {
        lemma_strip_trailing_take(s.drop_last(), c, k);
        assert(s.drop_last().take(k) =~= s.take(k));
    } else {
        assert(s.take(k) =~= s);
    }
}

proof fn lemma_strip_leading_skip(s: Seq<char>, c: char, k: int)
    requires
        0 <= k <= s.len(),
        forall|i: int| 0 <= i < k ==> #[trigger] s[i] == c,
    ensures
        strip_leading(s, c) == strip_leading(s.skip(k), c),
    decreases k,
{
    if k > 0 {
        lemma_strip_leading_skip(s.drop_first(), c, k - 1);
        assert(s.drop_first().skip(k - 1) =~= s.skip(k));
    } else {
        assert(s.skip(0) =~= s);
    }
}

/// The address of the secret at `path` in the store at `vault_addr`: the store's address
/// without trailing slashes, the data path, then the secret's path without leading slashes.
pub fn secret_url(vault_addr: &str, path: &str) -> (url: String)
    ensures
        url@ == secret_url_of(vault_addr@, path@),
{
    let a = chars_of(vault_addr);
    let mut end: usize = a.len();
    while end > 0 && a[end - 1] == '/'
        invariant
            end <= a@.len(),
            forall|i: int| end <= i < a@.len() ==> #[trigger] a@[i] == '/',
        decreases end,
    {
        end = end - 1;
    }
    proof {
        lemma_strip_trailing_take(a@, '/', end as int);
        assert(strip_trailing(a@.take(end as int), '/') == a@.take(end as int));
    }
    let p = chars_of(path);
    let mut start: usize = 0;
    while start < p.len() && p[start] == '/'
        invariant
            start <= p@.len(),
            forall|i: int| 0 <= i < start ==> #[trigger] p@[i] == '/',
        decreases p@.len() - start,
    {
        start = start + 1;
    }
    proof {
        lemma_strip_leading_skip(p@, '/', start as int);
        assert(strip_leading(p@.skip(start as int), '/') == p@.skip(start as int));
    }
    let mut out: Vec<char> = Vec::new();
    let mut i: usize = 0;
    while i < end
        invariant
            i <= end <= a@.len(),
            out@ == a@.take(i as int),
        decreases end - i,
    {
        out.push(a[i]);
        i = i + 1;
    }
    let middle = chars_of(SECRET_DATA_PATH);
    push_all(&mut out, &middle);
    let mut j: usize = start;
    let ghost head = out@;
    while j < p.len()
        invariant
            start <= j <= p@.len(),
            out@ == head + p@.subrange(start as int, j as int),
        decreases p@.len() - j,
    {
        out.push(p[j]);
        j = j + 1;
    }
    assert(out@ =~= secret_url_of(vault_addr@, path@));
    string_of(&out)
}

/// The error of a request that the store answered with a failure status.
pub open spec fn failure_message(status: Seq<char>, url: Seq<char>, body: Seq<char>) -> Seq<char> {
    FAILURE_HEAD@ + status + FAILURE_URL@ + url + FAILURE_BODY@ + body
}

/// The error when the secret holds no entry `key`.
pub open spec fn missing_message(key: Seq<char>, path: Seq<char>) -> Seq<char> {
    MISSING_HEAD@ + key + MISSING_MIDDLE@ + path + MISSING_TAIL@
}

fn concat_texts(parts: &Vec<&str>) -> (s: String)
    ensures
        s@ == parts@.fold_left(Seq::<char>::empty(), |acc: Seq<char>, p: &str| acc + p@),
{
    let mut out: Vec<char> = Vec::new();
    let mut i: usize = 0;
    while i < parts.len()
        invariant
            i <= parts@.len(),
            out@ == parts@.take(i as int).fold_left(
                Seq::<char>::empty(),
                |acc: Seq<char>, p: &str| acc + p@,
            ),
        decreases parts@.len() - i,
    {
        let cs = chars_of(parts[i]);
        push_all(&mut out, &cs);
        assert(parts@.take(i + 1).drop_last() =~= parts@.take(i as int));
        i = i + 1;
    }
    assert(parts@.take(parts@.len() as int) =~= parts@);
    string_of(&out)
}

/// What the status of the store's answer leads to: on success the answer is read; on a
/// failure status the request fails, with the status (as the HTTP library writes it), the
/// address and the body in the message.
pub fn check_response(success: bool, status: &str, url: &str, body: &str) -> (r: Result<(), String>)
    ensures
        r is Ok <==> success,
        r matches Err(m) ==> m@ == failure_message(status@, url@, body@),
{
    if success {
        Ok(())
    } else {
        let mut parts: Vec<&str> = Vec::new();
        parts.push(FAILURE_HEAD);
        parts.push(status);
        parts.push(FAILURE_URL);
        parts.push(url);
        parts.push(FAILURE_BODY);
        parts.push(body);
        let m = concat_texts(&parts);
        proof {
            reveal_with_fuel(Seq::fold_left, 7);
            assert(parts@ =~= seq![FAILURE_HEAD, status, FAILURE_URL, url, FAILURE_BODY, body]);
        }
        Err(m)
    }
}

/// Entries whose keys are all distinct, as those of a map are.
pub open spec fn distinct_keys(entries: Seq<(String, String)>) -> bool {
    forall|i: int, j: int|
        0 <= i < entries.len() && 0 <= j < entries.len() && i != j ==> #[trigger] entries[i].0@
            != #[trigger] entries[j].0@
}

/// The value of the entry `key` of a secret's data, or the error that names the key and
/// the secret's path when there is none. The entries of a secret's data come from a map,
/// so their keys are distinct and the value found is that of the one entry with the key;
/// were a key repeated, its first entry would count.
pub fn find_secret(entries: &Vec<(String, String)>, key: &str, path: &str) -> (r: Result<
    String,
    String,
>)
    ensures
        distinct_keys(entries@) ==> (r matches Ok(v) ==> forall|i: int|
            0 <= i < entries@.len() && #[trigger] entries@[i].0@ == key@ ==> entries@[i].1@
                == v@),
        r is Ok <==> exists|i: int| 0 <= i < entries@.len() && #[trigger] entries@[i].0@ == key@,
        r matches Ok(v) ==> exists|i: int|
            0 <= i < entries@.len() && #[trigger] entries@[i].0@ == key@ && entries@[i].1@
                == v@ && forall|j: int| 0 <= j < i ==> #[trigger] entries@[j].0@ != key@,
        r matches Err(m) ==> m@ == missing_message(key@, path@),
{
    let wanted = String::from_str(key);
    let mut i: usize = 0;
    while i < entries.len()
        invariant
            i <= entries@.len(),
            wanted@ == key@,
            forall|j: int| 0 <= j < i ==> #[trigger] entries@[j].0@ != key@,
        decreases entries@.len() - i,
    {
        if entries[i].0 == wanted {
            return Ok(entries[i].1.clone());
        }
        i = i + 1;
    }
    let mut parts: Vec<&str> = Vec::new();
    parts.push(MISSING_HEAD);
    parts.push(key);
    parts.push(MISSING_MIDDLE);
    parts.push(path);
    parts.push(MISSING_TAIL);
    let m = concat_texts(&parts);
    proof {
        reveal_with_fuel(Seq::fold_left, 6);
        assert(parts@ =~= seq![MISSING_HEAD, key, MISSING_MIDDLE, path, MISSING_TAIL]);
    }
    Err(m)
}

proof fn lemma_strip_trailing_idem(s: Seq<char>, c: char)
    ensures
        strip_trailing(s.push(c), c) == strip_trailing(s, c),
{
    assert(s.push(c).drop_last() =~= s);
}

proof fn lemma_strip_leading_idem(s: Seq<char>, c: char)
    ensures
        strip_leading(seq![c] + s, c) == strip_leading(s, c),
{
    assert((seq![c] + s).drop_first() =~= s);
}

/// The address of a secret does not depend on slashes at the end of the store's address
/// or at the start of the secret's path: adding one changes nothing.
pub proof fn lemma_secret_url_ignores_slashes(vault_addr: Seq<char>, path: Seq<char>)
    ensures
        secret_url_of(vault_addr.push('/'), path) == secret_url_of(vault_addr, path),
        secret_url_of(vault_addr, seq!['/'] + path) == secret_url_of(vault_addr, path),
{
    lemma_strip_trailing_idem(vault_addr, '/');
    lemma_strip_leading_idem(path, '/');
}

/// For a store address without a trailing slash and a secret path without a leading one,
/// the address is just the two joined by the data path.
pub proof fn lemma_secret_url_plain(vault_addr: Seq<char>, path: Seq<char>)
    requires
        vault_addr.len() > 0 ==> vault_addr.last() != '/',
        path.len() > 0 ==> path[0] != '/',
    ensures
        secret_url_of(vault_addr, path) == vault_addr + SECRET_DATA_PATH@ + path,
{
}

} // verus!
