//! Names of the files in which generated work is cached, keyed by model and prompt.
use vstd::prelude::*;
use std::collections::hash_map::DefaultHasher;
use std::hash::{Hash, Hasher};
use crate::text::{digit_char, hexadecimal, push_hexadecimal};
use vstd::std_specs::hash::DefaultHasherAdditionalSpecFns;

verus! {

/// The writes that `<str as Hash>::hash` makes into a hasher for the string `s`.
pub uninterp spec fn str_hash_writes(s: Seq<char>) -> Seq<Seq<u8>>;

/// `<str as Hash>::hash` into a `DefaultHasher`: it adds the writes named by
/// `str_hash_writes` to those the hasher has taken so far.
#[verifier::external_body]
fn hash_str(h: &mut DefaultHasher, s: &str)
    ensures
        final(h)@ == old(h)@ + str_hash_writes(s@),
{
    s.hash(h);
}

/// The key of a piece of work: what a fresh `DefaultHasher` finishes with after
/// hashing the model and then the prompt.
pub open spec fn cache_key(model: Seq<char>, prompt: Seq<char>) -> u64 {
    DefaultHasher::spec_finish(str_hash_writes(model) + str_hash_writes(prompt))
}

/// The name of the cache file of a piece of work: its key in lower-case
/// hexadecimal, then `.txt`.
pub open spec fn cache_name_view(model: Seq<char>, prompt: Seq<char>) -> Seq<char> {
    hexadecimal(cache_key(model, prompt) as nat) + ".txt"@
}

/// The name of the cache file of a piece of work whose key is `key`: the
/// lower-case hexadecimal numeral of the key, then `.txt`.
pub fn cache_file_name_of(key: u64) -> (r: String)
    ensures
        r@ == hexadecimal(key as nat) + ".txt"@,
{
    let mut r = String::new();
    push_hexadecimal(&mut r, key);
    r.append(".txt");
    r
}

/// The name of the cache file for `prompt` sent to `model`: the hash of the two,
/// by `DefaultHasher`, in hexadecimal, then `.txt`. It depends on the model and
/// the prompt alone, so the same work always finds the same file.
pub fn cache_file_name(model: &str, prompt: &str) -> (r: String)
    ensures
        r@ == cache_name_view(model@, prompt@),
        r@ == hexadecimal(
            DefaultHasher::spec_finish(str_hash_writes(model@) + str_hash_writes(prompt@)) as nat,
        ) + ".txt"@,
{
    let mut h = DefaultHasher::new();
    hash_str(&mut h, model);
    hash_str(&mut h, prompt);
    proof {
        assert(Seq::<Seq<u8>>::empty() + str_hash_writes(model@) =~= str_hash_writes(model@));
    }
    let key = h.finish();
    cache_file_name_of(key)
}

proof fn lemma_digit_injective(a: nat, b: nat)
    requires
        a < 16,
        b < 16,
        digit_char(a) == digit_char(b),
    ensures
        a == b,
{
    assert(digit_char(a) as u32 == if a < 10 { a + 48 } else { a + 87 });
    assert(digit_char(b) as u32 == if b < 10 { b + 48 } else { b + 87 });
}

proof fn lemma_hexadecimal_len(n: nat)
    ensures
        hexadecimal(n).len() >= 1,
        n >= 16 ==> hexadecimal(n).len() >= 2,
    decreases n,
{
    if n >= 16 {
        lemma_hexadecimal_len(n / 16);
    }
}

/// Different keys have different numerals.
proof fn lemma_hexadecimal_injective(a: nat, b: nat)
    requires
        hexadecimal(a) == hexadecimal(b),
    ensures
        a == b,
    decreases a,
{
    lemma_hexadecimal_len(a);
    lemma_hexadecimal_len(b);
    if a < 16 && b < 16 {
        assert(hexadecimal(a)[0] == digit_char(a));
        assert(hexadecimal(b)[0] == digit_char(b));
        lemma_digit_injective(a, b);
    } else if a >= 16 && b >= 16 {
        assert(hexadecimal(a).drop_last() =~= hexadecimal(a / 16));
        assert(hexadecimal(b).drop_last() =~= hexadecimal(b / 16));
        lemma_hexadecimal_injective(a / 16, b / 16);
        assert(hexadecimal(a).last() == digit_char(a % 16));
        assert(hexadecimal(b).last() == digit_char(b % 16));
        lemma_digit_injective(a % 16, b % 16);
    }
}

/// The same model and prompt always name the same cache file, and two pieces of
/// work share a file exactly where their keys agree.
pub proof fn same_work_same_cache_file(m1: Seq<char>, p1: Seq<char>, m2: Seq<char>, p2: Seq<char>)
    ensures
        m1 == m2 && p1 == p2 ==> cache_name_view(m1, p1) == cache_name_view(m2, p2),
        cache_name_view(m1, p1) == cache_name_view(m2, p2) <==> cache_key(m1, p1) == cache_key(
            m2,
            p2,
        ),
{
    let h1 = hexadecimal(cache_key(m1, p1) as nat);
    let h2 = hexadecimal(cache_key(m2, p2) as nat);
    if cache_name_view(m1, p1) == cache_name_view(m2, p2) {
        let t = ".txt"@;
        assert((h1 + t).len() == (h2 + t).len());
        assert((h1 + t).subrange(0, h1.len() as int) =~= h1);
        assert((h2 + t).subrange(0, h2.len() as int) =~= h2);
        lemma_hexadecimal_injective(cache_key(m1, p1) as nat, cache_key(m2, p2) as nat);
    }
}

/// The name of a cache file is the hash of the whole model and the whole prompt:
/// a fresh hasher fed the writes of all of the model's characters, then all of
/// the prompt's, finishes with the key that the name spells. So two prompts share
/// a file only where the hasher, fed each whole prompt, finishes alike, however
/// much of their text they have in common.
pub proof fn cache_name_hashes_the_whole_prompt(m: Seq<char>, p1: Seq<char>, p2: Seq<char>)
    ensures
        cache_name_view(m, p1) == hexadecimal(
            DefaultHasher::spec_finish(str_hash_writes(m) + str_hash_writes(p1)) as nat,
        ) + ".txt"@,
        cache_name_view(m, p1) == cache_name_view(m, p2) ==> DefaultHasher::spec_finish(
            str_hash_writes(m) + str_hash_writes(p1),
        ) == DefaultHasher::spec_finish(str_hash_writes(m) + str_hash_writes(p2)),
{
    same_work_same_cache_file(m, p1, m, p2);
}

} // verus!
