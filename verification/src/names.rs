//! Deterministic naming of collections and shard keys.
//!
//! A collection is named `{cluster collection-prefix}_{provider}_{model}` and
//! a shard key `{cluster shard-key-prefix}_{index}`, with the index rendered
//! in decimal.  Both schemes are injective: the lemmas at the bottom show
//! that equal names force equal identities.

use vstd::arithmetic::div_mod::lemma_fundamental_div_mod;
use vstd::prelude::*;
use vstd::string::StringExecFns;

use crate::registry::EmbedderModel;
use crate::registry::ProviderId;
use crate::registry::model_chars;
use crate::registry::model_str;
use crate::registry::provider_chars;
use crate::registry::provider_str;

verus! {

/// The character a single decimal digit is rendered as.
pub open spec fn digit_char(d: nat) -> char {
    if d == 0 {
        '0'
    } else if d == 1 {
        '1'
    } else if d == 2 {
        '2'
    } else if d == 3 {
        '3'
    } else if d == 4 {
        '4'
    } else if d == 5 {
        '5'
    } else if d == 6 {
        '6'
    } else if d == 7 {
        '7'
    } else if d == 8 {
        '8'
    } else {
        '9'
    }
}

/// The decimal rendering of a number, most significant digit first, with no
/// leading zeros (a single `'0'` for zero).
pub open spec fn dec_chars(n: nat) -> Seq<char>
    decreases n,
{
    if n < 10 {
        seq![digit_char(n)]
    } else {
        dec_chars(n / 10).push(digit_char(n % 10))
    }
}

/// The name of the collection for a (provider, model) pair, under a cluster's
/// collection prefix.
pub open spec fn collection_name_chars(
    prefix: Seq<char>,
    p: ProviderId,
    m: EmbedderModel,
) -> Seq<char> {
    prefix + "_"@ + provider_chars(p) + "_"@ + model_chars(m)
}

/// The name of the shard key at an index, under a cluster's shard-key prefix.
pub open spec fn shard_key_name_chars(prefix: Seq<char>, i: nat) -> Seq<char> {
    prefix + "_"@ + dec_chars(i)
}

fn digit_str(d: u64) -> (r: &'static str)
    requires
        d < 10,
    ensures
        r@ == seq![digit_char(d as nat)],
{
    proof {
        reveal_strlit("0");
        reveal_strlit("1");
        reveal_strlit("2");
        reveal_strlit("3");
        reveal_strlit("4");
        reveal_strlit("5");
        reveal_strlit("6");
        reveal_strlit("7");
        reveal_strlit("8");
        reveal_strlit("9");
        assert("0"@ =~= seq!['0']);
        assert("1"@ =~= seq!['1']);
        assert("2"@ =~= seq!['2']);
        assert("3"@ =~= seq!['3']);
        assert("4"@ =~= seq!['4']);
        assert("5"@ =~= seq!['5']);
        assert("6"@ =~= seq!['6']);
        assert("7"@ =~= seq!['7']);
        assert("8"@ =~= seq!['8']);
        assert("9"@ =~= seq!['9']);
    }
    if d == 0 {
        "0"
    } else if d == 1 {
        "1"
    } else if d == 2 {
        "2"
    } else if d == 3 {
        "3"
    } else if d == 4 {
        "4"
    } else if d == 5 {
        "5"
    } else if d == 6 {
        "6"
    } else if d == 7 {
        "7"
    } else if d == 8 {
        "8"
    } else {
        "9"
    }
}

/// Appends the decimal rendering of `n` to `s`.
pub fn push_decimal(s: &mut String, n: u64)
    ensures
        final(s)@ == old(s)@ + dec_chars(n as nat),
    decreases n,
{
    if n < 10 {
        s.append(digit_str(n));
    } else {
        let q = n / 10;
        let r = n % 10;
        proof {
            assert(q < n) by (nonlinear_arith)
                requires
                    n >= 10,
                    q == n / 10,
            ;
        }
        push_decimal(s, q);
        s.append(digit_str(r));
        proof {
            assert(s@ =~= old(s)@ + dec_chars(n as nat));
        }
    }
}

/// Builds the collection name for a (provider, model) pair under a prefix.
pub fn build_collection_name(prefix: &str, p: ProviderId, m: EmbedderModel) -> (r: String)
    ensures
        r@ == collection_name_chars(prefix@, p, m),
{
    let mut s = prefix.to_owned();
    s.append("_");
    s.append(provider_str(p));
    s.append("_");
    s.append(model_str(m));
    proof {
        assert(s@ =~= collection_name_chars(prefix@, p, m));
    }
    s
}

/// Builds the shard-key name for an index under a prefix.
pub fn build_shard_key_name(prefix: &str, i: u64) -> (r: String)
    ensures
        r@ == shard_key_name_chars(prefix@, i as nat),
{
    let mut s = prefix.to_owned();
    s.append("_");
    push_decimal(&mut s, i);
    proof {
        assert(s@ =~= shard_key_name_chars(prefix@, i as nat));
    }
    s
}

proof fn lemma_seq_cancel_left(a: Seq<char>, s: Seq<char>, t: Seq<char>)
    requires
        a + s == a + t,
    ensures
        s == t,
{
    assert((a + s).len() == a.len() + s.len());
    assert((a + t).len() == a.len() + t.len());
    assert(s.len() == t.len());
    assert forall|i: int| 0 <= i < s.len() implies s[i] == t[i] by {
        assert((a + s)[a.len() + i] == s[i]);
        assert((a + t)[a.len() + i] == t[i]);
    }
    assert(s =~= t);
}

proof fn lemma_dec_chars_len_pos(n: nat)
    ensures
        dec_chars(n).len() >= 1,
    decreases n,
{
    if n >= 10 {
        lemma_dec_chars_len_pos(n / 10);
    }
}

proof fn lemma_digit_char_injective(a: nat, b: nat)
    requires
        a < 10,
        b < 10,
        digit_char(a) == digit_char(b),
    ensures
        a == b,
{
}

/// Decimal renderings are injective: equal digit strings come from equal
/// numbers.
pub proof fn lemma_dec_chars_injective(a: nat, b: nat)
    requires
        dec_chars(a) == dec_chars(b),
    ensures
        a == b,
    decreases a,
{
    if a < 10 && b < 10 {
        assert(dec_chars(a) == seq![digit_char(a)]);
        assert(dec_chars(b) == seq![digit_char(b)]);
        assert(seq![digit_char(a)][0] == digit_char(a));
        assert(seq![digit_char(b)][0] == digit_char(b));
        lemma_digit_char_injective(a, b);
    } else if a < 10 {
        lemma_dec_chars_len_pos(b / 10);
        assert(dec_chars(b).len() >= 2);
        assert(false);
    } else if b < 10 {
        lemma_dec_chars_len_pos(a / 10);
        assert(dec_chars(a).len() >= 2);
        assert(false);
    } else {
        let la = dec_chars(a / 10);
        let lb = dec_chars(b / 10);
        assert(dec_chars(a) == la.push(digit_char(a % 10)));
        assert(dec_chars(b) == lb.push(digit_char(b % 10)));
        assert(la.len() == lb.len());
        assert(la.push(digit_char(a % 10))[la.len() as int] == digit_char(a % 10));
        assert(lb.push(digit_char(b % 10))[lb.len() as int] == digit_char(b % 10));
        lemma_digit_char_injective(a % 10, b % 10);
        assert forall|i: int| 0 <= i < la.len() implies la[i] == lb[i] by {
            assert(la.push(digit_char(a % 10))[i] == la[i]);
            assert(lb.push(digit_char(b % 10))[i] == lb[i]);
        }
        assert(la =~= lb);
        assert(a / 10 < a) by (nonlinear_arith)
            requires
                a >= 10,
        ;
        lemma_dec_chars_injective(a / 10, b / 10);
        lemma_fundamental_div_mod(a as int, 10);
        lemma_fundamental_div_mod(b as int, 10);
    }
}

/// Shard-key names are injective in the index: under one prefix, equal names
/// force equal indices.  With determinism of the scheme this makes the names
/// for distinct indices pairwise distinct.
pub proof fn lemma_shard_key_names_injective(prefix: Seq<char>, i: nat, j: nat)
    requires
        shard_key_name_chars(prefix, i) == shard_key_name_chars(prefix, j),
    ensures
        i == j,
{
    lemma_seq_cancel_left(prefix + "_"@, dec_chars(i), dec_chars(j));
    lemma_dec_chars_injective(i, j);
}

proof fn lemma_provider_chars_len(p: ProviderId)
    ensures
        provider_chars(p).len() == (match p {
            ProviderId::OpenAi => 6nat,
            ProviderId::Mistral => 7nat,
        }),
{
    match p {
        ProviderId::OpenAi => {
            reveal_strlit("openai");
        },
        ProviderId::Mistral => {
            reveal_strlit("mistral");
        },
    }
}

proof fn lemma_model_chars_len(m: EmbedderModel)
    ensures
        model_chars(m).len() == (match m {
            EmbedderModel::TextEmbeddingAda002 => 22nat,
            EmbedderModel::TextEmbedding3Large1536 => 27nat,
            EmbedderModel::MistralEmbed => 13nat,
        }),
{
    match m {
        EmbedderModel::TextEmbeddingAda002 => {
            reveal_strlit("text-embedding-ada-002");
        },
        EmbedderModel::TextEmbedding3Large1536 => {
            reveal_strlit("text-embedding-3-large-1536");
        },
        EmbedderModel::MistralEmbed => {
            reveal_strlit("mistral-embed");
        },
    }
}

/// Collection names are injective in the (provider, model) pair: under one
/// cluster prefix, equal names force equal identities.  With determinism of
/// the scheme this means distinct pairs on the same cluster never collide.
pub proof fn lemma_collection_names_injective(
    prefix: Seq<char>,
    p1: ProviderId,
    m1: EmbedderModel,
    p2: ProviderId,
    m2: EmbedderModel,
)
    requires
        collection_name_chars(prefix, p1, m1) == collection_name_chars(prefix, p2, m2),
    ensures
        p1 == p2,
        m1 == m2,
{
    lemma_provider_chars_len(p1);
    lemma_provider_chars_len(p2);
    lemma_model_chars_len(m1);
    lemma_model_chars_len(m2);
    reveal_strlit("_");
    assert(collection_name_chars(prefix, p1, m1).len() == prefix.len() + 2
        + provider_chars(p1).len() + model_chars(m1).len());
    assert(collection_name_chars(prefix, p2, m2).len() == prefix.len() + 2
        + provider_chars(p2).len() + model_chars(m2).len());
}

} // verus!
