use vstd::prelude::*;
use vstd::string::StrSliceExecFns;
use vstd::string::StringExecFns;

use crate::types::byte_len;
use crate::xml::{has_at, lit_at};

verus! {

/// The end of the longest prefix of `key`, scanning from `k`, whose UTF-8
/// encoding fits in the first four bytes.
pub open spec fn head_end(key: Seq<char>, k: int) -> int
    decreases key.len() - k,
{
    if 0 <= k < key.len() && byte_len(key.subrange(0, k + 1)) <= 4 {
        head_end(key, k + 1)
    } else {
        k
    }
}

/// The start of the longest suffix of `key`, scanning back from `k`, whose UTF-8
/// encoding fits in the last four bytes.
pub open spec fn tail_start(key: Seq<char>, k: int) -> int
    decreases k,
{
    if 0 < k <= key.len() && byte_len(key.subrange(k - 1, key.len() as int)) <= 4 {
        tail_start(key, k - 1)
    } else {
        k
    }
}

/// A key as it is shown, counted in UTF-8 bytes: a star for each byte when it has
/// at most eight, else the characters within its first four bytes and those
/// within its last four bytes around `...`. A character that crosses byte four,
/// or starts before the last four bytes, is left out.
pub open spec fn masked(key: Seq<char>) -> Seq<char> {
    if byte_len(key) <= 8 {
        Seq::new(byte_len(key) as nat, |i: int| '*')
    } else {
        key.subrange(0, head_end(key, 0)) + "..."@ + key.subrange(
            tail_start(key, key.len() as int),
            key.len() as int,
        )
    }
}

/// The word `key` stands somewhere in `s`.
pub open spec fn names_a_key(s: Seq<char>) -> bool {
    exists|i: int| has_at(s, i, "key"@)
}

/// A value as `config set` shows it: masked when the setting names a key.
pub open spec fn shown(key: Seq<char>, value: Seq<char>) -> Seq<char> {
    if names_a_key(key) {
        masked(value)
    } else {
        value
    }
}

fn prefix_end(key: &str, n: usize) -> (r: usize)
    requires
        n == key@.len(),
    ensures
        r == head_end(key@, 0),
        r <= n,
{
    let mut k: usize = 0;
    while k < n && key.substring_char(0, k + 1).len() <= 4
        invariant
            n == key@.len(),
            k <= n,
            head_end(key@, k as int) == head_end(key@, 0),
        decreases n - k,
    {
        k = k + 1;
    }
    k
}

fn suffix_start(key: &str, n: usize) -> (r: usize)
    requires
        n == key@.len(),
    ensures
        r == tail_start(key@, n as int),
        r <= n,
{
    let mut k: usize = n;
    while 0 < k && key.substring_char(k - 1, n).len() <= 4
        invariant
            n == key@.len(),
            k <= n,
            tail_start(key@, k as int) == tail_start(key@, n as int),
        decreases k,
    {
        k = k - 1;
    }
    k
}

/// Hides all of a key but its ends; never cuts a character.
pub fn mask_key(key: &str) -> (r: String)
    ensures
        r@ == masked(key@),
{
    let b = key.len();
    if b <= 8 {
        let mut s = String::new();
        let mut i: usize = 0;
        while i < b
            invariant
                0 <= i <= b,
                s@ == Seq::new(i as nat, |k: int| '*'),
            decreases b - i,
        {
            s.append("*");
            proof {
                reveal_strlit("*");
                assert(s@ =~= Seq::new((i + 1) as nat, |k: int| '*'));
            }
            i = i + 1;
        }
        s
    } else {
        let n = key.unicode_len();
        let h = prefix_end(key, n);
        let t = suffix_start(key, n);
        String::from_str(key.substring_char(0, h)).concat("...").concat(key.substring_char(t, n))
    }
}

/// The word `key` stands somewhere in `s`.
pub fn mentions_key(s: &str) -> (r: bool)
    ensures
        r == names_a_key(s@),
{
    let n = s.unicode_len();
    let mut i: usize = 0;
    while i < n
        invariant
            n == s@.len(),
            0 <= i <= n,
            forall|j: int| 0 <= j < i ==> !has_at(s@, j, "key"@),
        decreases n - i,
    {
        if lit_at(s, n, i, "key") {
            return true;
        }
        i = i + 1;
    }
    proof {
        reveal_strlit("key");
    }
    false
}

/// A value as `config set` shows it: masked when the setting names a key.
pub fn shown_value(key: &str, value: &str) -> (r: String)
    ensures
        r@ == shown(key@, value@),
{
    if mentions_key(key) {
        mask_key(value)
    } else {
        String::from_str(value)
    }
}

} // verus!
