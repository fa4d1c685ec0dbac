//! Query-string encoding.
//!
//! A query-parameter list is a sequence of key/value byte-string pairs.
//! Encoding percent-escapes every byte outside the unreserved set, joins
//! a pair with `=` and pairs with `&`, in the caller's order. The module
//! also holds the parser a receiving transport would apply, and the
//! proof that parsing an encoded list gives the list back exactly.

use vstd::prelude::*;

verus! {

broadcast use vstd::seq::group_seq_axioms, vstd::std_specs::vec::group_vec_axioms;

/// `%`
pub const PERCENT: u8 = 37;

/// `&`
pub const AMP: u8 = 38;

/// `=`
pub const EQUALS: u8 = 61;

/// Bytes written literally: ASCII letters, digits, `-`, `_`, `.`, `~`.
pub open spec fn is_unreserved(b: u8) -> bool {
    (65 <= b <= 90) || (97 <= b <= 122) || (48 <= b <= 57)
        || b == 45 || b == 95 || b == 46 || b == 126
}

/// The upper-case hex digit for a value below sixteen.
pub open spec fn hex_digit(n: int) -> u8 {
    if n < 10 {
        (48 + n) as u8
    } else {
        (55 + n) as u8
    }
}

/// The value of a hex digit byte, upper or lower case.
pub open spec fn hex_val(b: u8) -> Option<int> {
    if 48 <= b <= 57 {
        Some(b - 48)
    } else if 65 <= b <= 70 {
        Some(b - 55)
    } else if 97 <= b <= 102 {
        Some(b - 87)
    } else {
        None
    }
}

/// The encoding of one byte: itself, or `%` and two hex digits.
pub open spec fn enc_byte(b: u8) -> Seq<u8> {
    if is_unreserved(b) {
        seq![b]
    } else {
        seq![PERCENT, hex_digit(b as int / 16), hex_digit(b as int % 16)]
    }
}

/// The encoding of a byte string.
pub open spec fn enc_bytes(s: Seq<u8>) -> Seq<u8>
    decreases s.len(),
{
    if s.len() == 0 {
        Seq::empty()
    } else {
        enc_byte(s[0]) + enc_bytes(s.skip(1))
    }
}

/// The encoding of one key/value pair.
pub open spec fn enc_pair(p: (Seq<u8>, Seq<u8>)) -> Seq<u8> {
    enc_bytes(p.0) + seq![EQUALS] + enc_bytes(p.1)
}

/// The encoding of a parameter list, pairs joined with `&` in order.
pub open spec fn enc_query(l: Seq<(Seq<u8>, Seq<u8>)>) -> Seq<u8>
    decreases l.len(),
{
    if l.len() == 0 {
        Seq::empty()
    } else if l.len() == 1 {
        enc_pair(l[0])
    } else {
        enc_pair(l[0]) + seq![AMP] + enc_query(l.skip(1))
    }
}

/// The first position of `c` in `s`, or `s.len()` if absent.
pub open spec fn first_sep(s: Seq<u8>, c: u8) -> int
    decreases s.len(),
{
    if s.len() == 0 {
        0
    } else if s[0] == c {
        0
    } else {
        1 + first_sep(s.skip(1), c)
    }
}

/// `first_sep` is in bounds, points at `c`, and nothing before it is `c`.
pub proof fn lemma_first_sep(s: Seq<u8>, c: u8)
    ensures
        0 <= first_sep(s, c) <= s.len(),
        first_sep(s, c) < s.len() ==> s[first_sep(s, c)] == c,
        forall|k: int| 0 <= k < first_sep(s, c) ==> s[k] != c,
    decreases s.len(),
{
    if s.len() > 0 && s[0] != c {
        lemma_first_sep(s.skip(1), c);
        assert(forall|k: int| 1 <= k < s.len() ==> s[k] == s.skip(1)[k - 1]);
    }
}

/// Percent-decoding of one component; rejects raw `&` and `=`.
pub open spec fn dec_bytes(s: Seq<u8>) -> Option<Seq<u8>>
    decreases s.len(),
{
    if s.len() == 0 {
        Some(Seq::empty())
    } else if s[0] == PERCENT {
        if s.len() >= 3 && hex_val(s[1]) is Some && hex_val(s[2]) is Some
            && dec_bytes(s.skip(3)) is Some {
            Some(
                seq![(16 * hex_val(s[1])->Some_0 + hex_val(s[2])->Some_0) as u8]
                    + dec_bytes(s.skip(3))->Some_0,
            )
        } else {
            None
        }
    } else if s[0] == AMP || s[0] == EQUALS {
        None
    } else if dec_bytes(s.skip(1)) is Some {
        Some(seq![s[0]] + dec_bytes(s.skip(1))->Some_0)
    } else {
        None
    }
}

/// Decoding of one component into a pair, split at the first `=`.
pub open spec fn dec_pair(s: Seq<u8>) -> Option<(Seq<u8>, Seq<u8>)> {
    let j = first_sep(s, EQUALS);
    if j == s.len() {
        None
    } else {
        match (dec_bytes(s.take(j)), dec_bytes(s.skip(j + 1))) {
            (Some(k), Some(v)) => Some((k, v)),
            _ => None,
        }
    }
}

/// Parsing of a whole query string, components split at `&`.
pub open spec fn dec_query(s: Seq<u8>) -> Option<Seq<(Seq<u8>, Seq<u8>)>>
    decreases s.len(),
    via dec_query_dec
{
    if s.len() == 0 {
        Some(Seq::empty())
    } else {
        let i = first_sep(s, AMP);
        if i == s.len() {
            match dec_pair(s) {
                Some(p) => Some(seq![p]),
                None => None,
            }
        } else {
            match (dec_pair(s.take(i)), dec_query(s.skip(i + 1))) {
                (Some(p), Some(r)) => Some(seq![p] + r),
                _ => None,
            }
        }
    }
}

#[via_fn]
proof fn dec_query_dec(s: Seq<u8>) {
    lemma_first_sep(s, AMP);
}

/// The encoding of a byte string holds no separator and no percent sign
/// except where written by the encoder, and never a raw `&` or `=`.
pub proof fn lemma_enc_bytes_no_sep(s: Seq<u8>)
    ensures
        forall|i: int| 0 <= i < enc_bytes(s).len()
            ==> enc_bytes(s)[i] != AMP && enc_bytes(s)[i] != EQUALS,
    decreases s.len(),
{
    if s.len() > 0 {
        lemma_enc_bytes_no_sep(s.skip(1));
        let e0 = enc_byte(s[0]);
        assert(forall|i: int| 0 <= i < e0.len() ==> e0[i] != AMP && e0[i] != EQUALS);
        assert(enc_bytes(s) == e0 + enc_bytes(s.skip(1)));
        assert(forall|i: int| e0.len() <= i < enc_bytes(s).len()
            ==> enc_bytes(s)[i] == enc_bytes(s.skip(1))[i - e0.len()]);
    }
}

/// The encoding of a pair holds no `&`.
pub proof fn lemma_enc_pair_no_amp(p: (Seq<u8>, Seq<u8>))
    ensures
        forall|i: int| 0 <= i < enc_pair(p).len() ==> enc_pair(p)[i] != AMP,
{
    lemma_enc_bytes_no_sep(p.0);
    lemma_enc_bytes_no_sep(p.1);
}

/// In `a + [c] + b` with no `c` in `a`, the first `c` stands at `a.len()`.
pub proof fn lemma_first_sep_concat(a: Seq<u8>, c: u8, b: Seq<u8>)
    requires
        forall|i: int| 0 <= i < a.len() ==> a[i] != c,
    ensures
        first_sep(a + seq![c] + b, c) == a.len(),
    decreases a.len(),
{
    let s = a + seq![c] + b;
    if a.len() == 0 {
        assert(s[0] == c);
    } else {
        assert(s[0] == a[0]);
        lemma_first_sep_concat(a.skip(1), c, b);
        assert(s.skip(1) =~= a.skip(1) + seq![c] + b);
    }
}

/// With no `c` at all, `first_sep` returns the length.
pub proof fn lemma_first_sep_none(a: Seq<u8>, c: u8)
    requires
        forall|i: int| 0 <= i < a.len() ==> a[i] != c,
    ensures
        first_sep(a, c) == a.len(),
    decreases a.len(),
{
    if a.len() > 0 {
        lemma_first_sep_none(a.skip(1), c);
    }
}

/// Decoding inverts encoding on one component.
pub proof fn lemma_dec_enc_bytes(s: Seq<u8>)
    ensures
        dec_bytes(enc_bytes(s)) == Some(s),
    decreases s.len(),
{
    if s.len() == 0 {
        assert(enc_bytes(s) =~= Seq::<u8>::empty());
    } else {
        lemma_dec_enc_bytes(s.skip(1));
        let e = enc_bytes(s);
        let b = s[0];
        if is_unreserved(b) {
            assert(e =~= seq![b] + enc_bytes(s.skip(1)));
            assert(e[0] == b);
            assert(e.skip(1) =~= enc_bytes(s.skip(1)));
            assert(seq![b] + s.skip(1) =~= s);
        } else {
            let h1 = hex_digit(b as int / 16);
            let h2 = hex_digit(b as int % 16);
            assert(e =~= seq![PERCENT, h1, h2] + enc_bytes(s.skip(1)));
            assert(e[0] == PERCENT && e[1] == h1 && e[2] == h2);
            assert(hex_val(h1) == Some(b as int / 16));
            assert(hex_val(h2) == Some(b as int % 16));
            assert(e.skip(3) =~= enc_bytes(s.skip(1)));
            assert(16 * (b as int / 16) + b as int % 16 == b as int);
            assert((16 * (b as int / 16) + b as int % 16) as u8 == b);
            assert(seq![b] + s.skip(1) =~= s);
        }
    }
}

/// Decoding inverts encoding on one pair.
pub proof fn lemma_dec_enc_pair(p: (Seq<u8>, Seq<u8>))
    ensures
        dec_pair(enc_pair(p)) == Some(p),
{
    let e = enc_pair(p);
    lemma_enc_bytes_no_sep(p.0);
    lemma_first_sep_concat(enc_bytes(p.0), EQUALS, enc_bytes(p.1));
    let j = first_sep(e, EQUALS);
    assert(j == enc_bytes(p.0).len());
    lemma_first_sep(e, EQUALS);
    assert(e.take(j) =~= enc_bytes(p.0));
    assert(e.skip(j + 1) =~= enc_bytes(p.1));
    lemma_dec_enc_bytes(p.0);
    lemma_dec_enc_bytes(p.1);
}

/// Parsing inverts encoding on a whole parameter list: key order and
/// every byte of every key and value come back exactly.
pub proof fn lemma_query_round_trip(l: Seq<(Seq<u8>, Seq<u8>)>)
    ensures
        dec_query(enc_query(l)) == Some(l),
    decreases l.len(),
{
    if l.len() == 0 {
        assert(enc_query(l) =~= Seq::<u8>::empty());
        assert(dec_query(enc_query(l)) == Some(Seq::<(Seq<u8>, Seq<u8>)>::empty()));
        assert(Seq::<(Seq<u8>, Seq<u8>)>::empty() =~= l);
    } else if l.len() == 1 {
        let e = enc_query(l);
        lemma_enc_pair_no_amp(l[0]);
        lemma_first_sep_none(e, AMP);
        lemma_dec_enc_pair(l[0]);
        assert(seq![l[0]] =~= l);
    } else {
        let e = enc_query(l);
        let e0 = enc_pair(l[0]);
        let rest = enc_query(l.skip(1));
        assert(e == e0 + seq![AMP] + rest);
        lemma_enc_pair_no_amp(l[0]);
        lemma_first_sep_concat(e0, AMP, rest);
        let i = first_sep(e, AMP);
        assert(i == e0.len());
        assert(e.len() == e0.len() + 1 + rest.len());
        assert(e.take(i) =~= e0);
        assert(e.skip(i + 1) =~= rest);
        lemma_dec_enc_pair(l[0]);
        lemma_query_round_trip(l.skip(1));
        assert(seq![l[0]] + l.skip(1) =~= l);
    }
}

/// Two different parameter lists never encode to the same bytes.
pub proof fn lemma_query_encoding_injective(l1: Seq<(Seq<u8>, Seq<u8>)>, l2: Seq<(Seq<u8>, Seq<u8>)>)
    requires
        enc_query(l1) == enc_query(l2),
    ensures
        l1 == l2,
{
    lemma_query_round_trip(l1);
    lemma_query_round_trip(l2);
}

/// The view of an executable parameter list.
pub open spec fn pairs_view(q: Seq<(Vec<u8>, Vec<u8>)>) -> Seq<(Seq<u8>, Seq<u8>)> {
    q.map_values(|p: (Vec<u8>, Vec<u8>)| (p.0@, p.1@))
}

/// `enc_bytes` distributes over concatenation.
proof fn lemma_enc_bytes_concat(a: Seq<u8>, b: Seq<u8>)
    ensures
        enc_bytes(a + b) == enc_bytes(a) + enc_bytes(b),
    decreases a.len(),
{
    if a.len() == 0 {
        assert(a + b =~= b);
        assert(enc_bytes(a) + enc_bytes(b) =~= enc_bytes(b));
    } else {
        assert((a + b).skip(1) =~= a.skip(1) + b);
        lemma_enc_bytes_concat(a.skip(1), b);
        assert(enc_bytes(a + b) =~= enc_bytes(a) + enc_bytes(b));
    }
}

/// Appending one pair extends the encoding by a separator and the pair.
proof fn lemma_enc_query_push(t: Seq<(Seq<u8>, Seq<u8>)>, p: (Seq<u8>, Seq<u8>))
    ensures
        t.len() == 0 ==> enc_query(t.push(p)) == enc_pair(p),
        t.len() > 0 ==> enc_query(t.push(p)) == enc_query(t) + seq![AMP] + enc_pair(p),
    decreases t.len(),
{
    if t.len() == 0 {
        assert(t.push(p)[0] == p);
        assert(enc_query(t.push(p)) == enc_pair(p));
    } else {
        lemma_enc_query_push(t.skip(1), p);
        assert(t.push(p).skip(1) =~= t.skip(1).push(p));
        assert(t.push(p)[0] == t[0]);
        assert(enc_query(t.push(p)) =~= enc_query(t) + seq![AMP] + enc_pair(p));
    }
}

/// The upper-case hex digit of a value below sixteen.
fn hex_digit_exec(n: u8) -> (r: u8)
    requires
        n < 16,
    ensures
        r == hex_digit(n as int),
{
    if n < 10 {
        48 + n
    } else {
        55 + n
    }
}

/// The value of a hex digit byte, or `None`.
fn hex_val_exec(b: u8) -> (r: Option<u8>)
    ensures
        match r {
            Some(n) => hex_val(b) == Some(n as int),
            None => hex_val(b) is None,
        },
{
    if 48 <= b && b <= 57 {
        Some(b - 48)
    } else if 65 <= b && b <= 70 {
        Some(b - 55)
    } else if 97 <= b && b <= 102 {
        Some(b - 87)
    } else {
        None
    }
}

/// Appends the encoding of `src` to `dst`.
#[verifier::loop_isolation(false)]
fn encode_component(dst: &mut Vec<u8>, src: &Vec<u8>)
    ensures
        final(dst)@ == old(dst)@ + enc_bytes(src@),
{
    let mut i: usize = 0;
    proof {
        assert(src@.take(0) =~= Seq::<u8>::empty());
        assert(enc_bytes(src@.take(0)) =~= Seq::<u8>::empty());
        assert(dst@ =~= dst@ + enc_bytes(src@.take(0)));
    }
    while i < src.len()
        invariant
            i <= src.len(),
            dst@ == old(dst)@ + enc_bytes(src@.take(i as int)),
        decreases src.len() - i,
    {
        let b = src[i];
        let is_plain = (65 <= b && b <= 90) || (97 <= b && b <= 122)
            || (48 <= b && b <= 57) || b == 45 || b == 95 || b == 46 || b == 126;
        if is_plain {
            dst.push(b);
        } else {
            dst.push(PERCENT);
            dst.push(hex_digit_exec(b / 16));
            dst.push(hex_digit_exec(b % 16));
        }
        proof {
            assert(src@.take(i as int + 1) =~= src@.take(i as int) + seq![src@[i as int]]);
            lemma_enc_bytes_concat(src@.take(i as int), seq![src@[i as int]]);
            assert(seq![src@[i as int]].skip(1) =~= Seq::<u8>::empty());
            assert(enc_bytes(seq![src@[i as int]])
                == enc_byte(src@[i as int]) + enc_bytes(Seq::<u8>::empty()));
            assert(enc_bytes(seq![src@[i as int]]) =~= enc_byte(src@[i as int]));
            assert(dst@ =~= old(dst)@ + enc_bytes(src@.take(i as int + 1)));
        }
        i = i + 1;
    }
    proof {
        assert(src@.take(src@.len() as int) =~= src@);
    }
}

/// Encodes a parameter list into query-string bytes, in the given order.
#[verifier::loop_isolation(false)]
pub fn encode_query(pairs: &Vec<(Vec<u8>, Vec<u8>)>) -> (r: Vec<u8>)
    ensures
        r@ == enc_query(pairs_view(pairs@)),
{
    let mut out: Vec<u8> = Vec::new();
    let mut i: usize = 0;
    proof {
        assert(pairs_view(pairs@).take(0) =~= Seq::<(Seq<u8>, Seq<u8>)>::empty());
        assert(out@ =~= enc_query(pairs_view(pairs@).take(0)));
    }
    while i < pairs.len()
        invariant
            i <= pairs.len(),
            out@ == enc_query(pairs_view(pairs@).take(i as int)),
        decreases pairs.len() - i,
    {
        if i > 0 {
            out.push(AMP);
        }
        let ghost before = out@;
        encode_component(&mut out, &pairs[i].0);
        out.push(EQUALS);
        encode_component(&mut out, &pairs[i].1);
        proof {
            let t = pairs_view(pairs@);
            assert(t.take(i as int + 1) =~= t.take(i as int).push(t[i as int]));
            lemma_enc_query_push(t.take(i as int), t[i as int]);
            assert(out@ =~= before + enc_pair(t[i as int]));
            assert(out@ =~= enc_query(t.take(i as int + 1)));
        }
        i = i + 1;
    }
    proof {
        assert(pairs_view(pairs@).take(pairs@.len() as int) =~= pairs_view(pairs@));
    }
    out
}

/// The first position of `c` in `s`, or `s.len()`.
#[verifier::loop_isolation(false)]
fn find_sep(s: &[u8], c: u8) -> (i: usize)
    ensures
        i as int == first_sep(s@, c),
    decreases s@.len(),
{
    proof {
        lemma_first_sep(s@, c);
    }
    if s.len() == 0 {
        0
    } else if s[0] == c {
        0
    } else {
        let rest = &s[1..s.len()];
        proof {
            assert(rest@ =~= s@.skip(1));
        }
        1 + find_sep(rest, c)
    }
}

/// Percent-decodes one component; `None` on a raw separator or a broken
/// escape, exactly as `dec_bytes` says.
#[verifier::loop_isolation(false)]
fn decode_component(s: &[u8]) -> (r: Option<Vec<u8>>)
    ensures
        match r {
            Some(v) => dec_bytes(s@) == Some(v@),
            None => dec_bytes(s@) is None,
        },
{
    let mut out: Vec<u8> = Vec::new();
    let mut i: usize = 0;
    proof {
        assert(s@.skip(0) =~= s@);
    }
    while i < s.len()
        invariant
            i <= s.len(),
            match dec_bytes(s@.skip(i as int)) {
                Some(rest) => dec_bytes(s@) == Some(out@ + rest),
                None => dec_bytes(s@) is None,
            },
        decreases s.len() - i,
    {
        let ghost suf = s@.skip(i as int);
        proof {
            assert(suf[0] == s@[i as int]);
            assert(suf.skip(1) =~= s@.skip(i as int + 1));
        }
        let b = s[i];
        if b == PERCENT {
            if s.len() - i >= 3 {
                proof {
                    assert(suf[1] == s@[i as int + 1]);
                    assert(suf[2] == s@[i as int + 2]);
                    assert(suf.skip(3) =~= s@.skip(i as int + 3));
                }
                let h1 = hex_val_exec(s[i + 1]);
                let h2 = hex_val_exec(s[i + 2]);
                match (h1, h2) {
                    (Some(n1), Some(n2)) => {
                        out.push(16 * n1 + n2);
                        i = i + 3;
                    },
                    _ => {
                        return None;
                    },
                }
            } else {
                proof {
                    assert(suf.len() < 3);
                }
                return None;
            }
        } else if b == AMP || b == EQUALS {
            return None;
        } else {
            out.push(b);
            i = i + 1;
        }
    }
    proof {
        assert(s@.skip(s@.len() as int) =~= Seq::<u8>::empty());
        assert(out@ + Seq::<u8>::empty() =~= out@);
    }
    Some(out)
}

/// Parses query-string bytes into a parameter list, as the transport
/// would: components split at `&`, each split at its first `=`, both
/// halves percent-decoded. `None` exactly where `dec_query` says so.
#[verifier::loop_isolation(false)]
pub fn parse_query(s: &[u8]) -> (r: Option<Vec<(Vec<u8>, Vec<u8>)>>)
    ensures
        match r {
            Some(v) => dec_query(s@) == Some(pairs_view(v@)),
            None => dec_query(s@) is None,
        },
{
    let mut acc: Vec<(Vec<u8>, Vec<u8>)> = Vec::new();
    let mut pos: usize = 0;
    proof {
        assert(s@.skip(0) =~= s@);
        assert(pairs_view(acc@) =~= Seq::<(Seq<u8>, Seq<u8>)>::empty());
    }
    while pos < s.len()
        invariant
            pos <= s.len(),
            match dec_query(s@.skip(pos as int)) {
                Some(rest) => dec_query(s@) == Some(pairs_view(acc@) + rest),
                None => dec_query(s@) is None,
            },
        decreases s.len() - pos,
    {
        let ghost suf = s@.skip(pos as int);
        let tail = &s[pos..s.len()];
        proof {
            assert(tail@ =~= suf);
            lemma_first_sep(suf, AMP);
        }
        let i = find_sep(tail, AMP);
        let comp = &s[pos..pos + i];
        proof {
            assert(comp@ =~= suf.take(i as int));
            lemma_first_sep(comp@, EQUALS);
            if i < tail.len() {
                assert(suf.take(i as int) =~= comp@);
            } else {
                assert(suf.take(i as int) =~= suf);
            }
        }
        let j = find_sep(comp, EQUALS);
        if j == comp.len() {
            proof {
                assert(dec_pair(comp@) is None);
                if (i as int) < suf.len() {
                    assert(dec_query(suf) is None);
                } else {
                    assert(comp@ =~= suf);
                    assert(dec_query(suf) is None);
                }
            }
            return None;
        }
        let key_part = &comp[0..j];
        let val_part = &comp[j + 1..comp.len()];
        proof {
            assert(key_part@ =~= comp@.take(j as int));
            assert(val_part@ =~= comp@.skip(j as int + 1));
        }
        let decoded_key = decode_component(key_part);
        let decoded_val = decode_component(val_part);
        match (decoded_key, decoded_val) {
            (Some(k), Some(v)) => {
                let ghost p = (k@, v@);
                proof {
                    assert(dec_pair(comp@) == Some(p));
                }
                acc.push((k, v));
                proof {
                    assert(pairs_view(acc@) =~= pairs_view(acc@.take(acc@.len() - 1)).push(p));
                }
                if i == tail.len() {
                    proof {
                        assert(comp@ =~= suf);
                        assert(dec_query(suf) == Some(seq![p]));
                        assert(s@.skip(s@.len() as int) =~= Seq::<u8>::empty());
                        assert(pairs_view(acc@.take(acc@.len() - 1)) + (seq![p] + Seq::<(Seq<u8>, Seq<u8>)>::empty())
                            =~= pairs_view(acc@) + Seq::<(Seq<u8>, Seq<u8>)>::empty());
                    }
                    pos = s.len();
                } else {
                    proof {
                        assert(suf.skip(i as int + 1) =~= s@.skip(pos as int + i as int + 1));
                        assert(forall|q: Seq<(Seq<u8>, Seq<u8>)>|
                            pairs_view(acc@.take(acc@.len() - 1)) + (seq![p] + q)
                                =~= pairs_view(acc@) + q);
                    }
                    pos = pos + i + 1;
                }
            },
            _ => {
                proof {
                    assert(dec_pair(comp@) is None);
                    if (i as int) < suf.len() {
                        assert(dec_query(suf) is None);
                    } else {
                        assert(comp@ =~= suf);
                        assert(dec_query(suf) is None);
                    }
                }
                return None;
            },
        }
    }
    proof {
        assert(s@.skip(s@.len() as int) =~= Seq::<u8>::empty());
        assert(s@.skip(pos as int) =~= Seq::<u8>::empty());
        assert(pairs_view(acc@) + Seq::<(Seq<u8>, Seq<u8>)>::empty() =~= pairs_view(acc@));
    }
    Some(acc)
}

} // verus!
