//! Text helpers: equality of strings and the canonical rendering of a run of
//! tokens.
use vstd::prelude::*;
use vstd::string::*;
use vstd::utf8::*;

verus! {

/// Whether two strings hold the same characters.
pub fn text_eq(a: &str, b: &str) -> (same: bool)
    ensures
        same == (a@ == b@),
{
    let x = a.as_bytes();
    let y = b.as_bytes();
    proof {
        encode_utf8_decode_utf8(a@);
        encode_utf8_decode_utf8(b@);
    }
    if x.len() != y.len() {
        return false;
    }
    let n = x.len();
    let mut i: usize = 0;
    while i < n
        invariant
            i <= n,
            n == x@.len(),
            n == y@.len(),
            x@ == encode_utf8(a@),
            y@ == encode_utf8(b@),
            forall|j: int| 0 <= j < i ==> x@[j] == y@[j],
        decreases n - i,
    {
        if x[i] != y[i] {
            return false;
        }
        i += 1;
    }
    assert(x@ =~= y@);
    true
}

/// The texts of `parts` one after the other, with nothing between them.
pub open spec fn join_texts(parts: Seq<String>) -> Seq<char>
    decreases parts.len(),
{
    if parts.len() == 0 {
        Seq::empty()
    } else {
        join_texts(parts.drop_last()) + parts.last()@
    }
}

/// Whether `s` begins with a comma that has a space on either side.
pub open spec fn starts_with_spaced_comma(s: Seq<char>) -> bool {
    s.len() >= 3 && s[0] == ' ' && s[1] == ',' && s[2] == ' '
}

/// `s` with every ` , ` replaced by `, `, reading from the left and never
/// reusing a character of one match for the next.
pub open spec fn tidy_commas(s: Seq<char>) -> Seq<char>
    decreases s.len(),
{
    if s.len() == 0 {
        s
    } else if starts_with_spaced_comma(s) {
        seq![',', ' '] + tidy_commas(s.skip(3))
    } else {
        seq![s[0]] + tidy_commas(s.skip(1))
    }
}

/// The canonical text of a run of tokens: the token texts joined without
/// separators, then tidied around commas.
pub open spec fn rendered(tokens: Seq<String>) -> Seq<char> {
    tidy_commas(join_texts(tokens))
}

fn tidy_commas_of(s: &str) -> (out: String)
    ensures
        out@ == tidy_commas(s@),
{
    let n = s.unicode_len();
    let mut out = String::new();
    let mut i: usize = 0;
    assert(s@.skip(0) =~= s@);
    while i < n
        invariant
            i <= n,
            n == s@.len(),
            out@ + tidy_commas(s@.skip(i as int)) == tidy_commas(s@),
        decreases n - i,
    {
        let ghost rest = s@.skip(i as int);
        if n - i >= 3 && s.get_char(i) == ' ' && s.get_char(i + 1) == ',' && s.get_char(i + 2)
            == ' ' {
            proof {
                reveal_strlit(", ");
                assert(starts_with_spaced_comma(rest));
                assert(rest.skip(3) =~= s@.skip(i + 3));
                assert(", "@ =~= seq![',', ' ']);
                assert((out@ + ", "@) + tidy_commas(s@.skip(i + 3)) =~= out@ + tidy_commas(rest));
            }
            out.append(", ");
            i += 3;
        } else {
            let one = s.substring_char(i, i + 1);
            proof {
                assert(!starts_with_spaced_comma(rest));
                assert(rest.skip(1) =~= s@.skip(i + 1));
                assert(one@ =~= seq![rest[0]]);
                assert((out@ + one@) + tidy_commas(s@.skip(i + 1)) =~= out@ + tidy_commas(rest));
            }
            out.append(one);
            i += 1;
        }
    }
    assert(out@ + Seq::<char>::empty() =~= out@);
    out
}

/// Renders a run of token texts as canonical text.
///
/// The texts are joined as they stand; a comma that a nested group printed
/// with a space before it loses that space.
pub fn stringify_token(tokens: &Vec<String>) -> (text: String)
    ensures
        text@ == rendered(tokens@),
{
    let mut joined = String::new();
    let mut i: usize = 0;
    assert(tokens@.take(0) =~= Seq::<String>::empty());
    while i < tokens.len()
        invariant
            i <= tokens.len(),
            joined@ == join_texts(tokens@.take(i as int)),
        decreases tokens.len() - i,
    {
        proof {
            let next = tokens@.take(i + 1);
            assert(next.drop_last() =~= tokens@.take(i as int));
            assert(next.last() == tokens@[i as int]);
        }
        joined.append(tokens[i].as_str());
        i += 1;
    }
    assert(tokens@.take(tokens.len() as int) =~= tokens@);
    tidy_commas_of(joined.as_str())
}

/// How one text stands to another in the order of texts.
#[derive(Copy, Clone, Debug, PartialEq, Eq, Structural)]
pub enum Placement {
    Before,
    Same,
    After,
}

/// Whether `a` and `b` agree on their first `k` bytes and `a` is the lesser
/// from there: it ends at `k` where `b` goes on, or has the lesser byte.
pub open spec fn precedes_at(a: Seq<u8>, b: Seq<u8>, k: int) -> bool {
    &&& 0 <= k <= a.len()
    &&& k < b.len()
    &&& a.take(k) == b.take(k)
    &&& k < a.len() ==> a[k] < b[k]
}

/// Whether `a` comes before `b` in the order of the dictionary.
pub open spec fn bytes_before(a: Seq<u8>, b: Seq<u8>) -> bool {
    exists|k: int| precedes_at(a, b, k)
}

/// Whether the text `a` comes before the text `b`: texts are ordered as
/// their UTF-8 bytes are, which is the order of `str`.
pub open spec fn text_before(a: Seq<char>, b: Seq<char>) -> bool {
    bytes_before(encode_utf8(a), encode_utf8(b))
}

/// No text comes before itself.
pub proof fn text_order_is_irreflexive(a: Seq<char>)
    ensures
        !text_before(a, a),
{
}

/// What comes before a text comes before all that the text comes before.
pub proof fn text_order_is_transitive(a: Seq<char>, b: Seq<char>, c: Seq<char>)
    requires
        text_before(a, b),
        text_before(b, c),
    ensures
        text_before(a, c),
{
    let (x, y, z) = (encode_utf8(a), encode_utf8(b), encode_utf8(c));
    let i = choose|k: int| precedes_at(x, y, k);
    let j = choose|k: int| precedes_at(y, z, k);
    let k = if i <= j {
        i
    } else {
        j
    };
    assert(x.take(k) =~= x.take(i).take(k));
    assert(y.take(k) =~= y.take(i).take(k));
    assert(y.take(k) =~= y.take(j).take(k));
    assert(z.take(k) =~= z.take(j).take(k));
    if k < i {
        assert(x[k] == x.take(i)[k]);
        assert(y[k] == y.take(i)[k]);
    }
    if k < j {
        assert(y[k] == y.take(j)[k]);
        assert(z[k] == z.take(j)[k]);
    }
    assert(precedes_at(x, z, k));
}

/// Of two byte strings that agree on their first `k` bytes and differ, one
/// comes before the other.
proof fn lemma_bytes_order_is_total(a: Seq<u8>, b: Seq<u8>, k: int)
    requires
        0 <= k <= a.len(),
        k <= b.len(),
        a.take(k) == b.take(k),
        a != b,
    ensures
        bytes_before(a, b) || bytes_before(b, a),
    decreases a.len() - k,
{
    if k == a.len() {
        if k == b.len() {
            assert(a.take(k) =~= a);
            assert(b.take(k) =~= b);
        } else {
            assert(precedes_at(a, b, k));
        }
    } else if k == b.len() {
        assert(precedes_at(b, a, k));
    } else if a[k] < b[k] {
        assert(precedes_at(a, b, k));
    } else if b[k] < a[k] {
        assert(precedes_at(b, a, k));
    } else {
        assert(a.take(k + 1) =~= a.take(k).push(a[k]));
        assert(b.take(k + 1) =~= b.take(k).push(b[k]));
        lemma_bytes_order_is_total(a, b, k + 1);
    }
}

/// Of two different texts one comes before the other.
pub proof fn text_order_is_total(a: Seq<char>, b: Seq<char>)
    requires
        a != b,
    ensures
        text_before(a, b) || text_before(b, a),
{
    encode_utf8_decode_utf8(a);
    encode_utf8_decode_utf8(b);
    assert(encode_utf8(a).take(0) =~= encode_utf8(b).take(0));
    lemma_bytes_order_is_total(encode_utf8(a), encode_utf8(b), 0);
}

/// Says how `a` stands to `b` in the order of texts.
pub fn text_order(a: &str, b: &str) -> (placement: Placement)
    ensures
        match placement {
            Placement::Before => text_before(a@, b@),
            Placement::Same => a@ == b@,
            Placement::After => text_before(b@, a@),
        },
{
    let x = a.as_bytes();
    let y = b.as_bytes();
    proof {
        encode_utf8_decode_utf8(a@);
        encode_utf8_decode_utf8(b@);
    }
    let mut i: usize = 0;
    assert(x@.take(0) =~= y@.take(0));
    while i < x.len() && i < y.len()
        invariant
            i <= x@.len(),
            i <= y@.len(),
            x@ == encode_utf8(a@),
            y@ == encode_utf8(b@),
            x@.take(i as int) == y@.take(i as int),
        decreases x@.len() - i,
    {
        if x[i] < y[i] {
            assert(precedes_at(x@, y@, i as int));
            return Placement::Before;
        }
        if y[i] < x[i] {
            assert(precedes_at(y@, x@, i as int));
            return Placement::After;
        }
        proof {
            assert(x@.take(i + 1) =~= x@.take(i as int).push(x@[i as int]));
            assert(y@.take(i + 1) =~= y@.take(i as int).push(y@[i as int]));
        }
        i += 1;
    }
    if i < y.len() {
        assert(precedes_at(x@, y@, i as int));
        Placement::Before
    } else if i < x.len() {
        assert(precedes_at(y@, x@, i as int));
        Placement::After
    } else {
        assert(x@.take(i as int) =~= x@);
        assert(y@.take(i as int) =~= y@);
        Placement::Same
    }
}

} // verus!
