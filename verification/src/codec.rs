//! The stored-record codec.
//!
//! A record is stored as one JSON object with two string fields: the owning
//! canister's canonical principal text and the display name.  The encoder
//! emits the canonical byte form (minimal escaping, fixed field order); the
//! decoder accepts exactly the canonical encodings and rejects everything
//! else, so decoding inverts encoding on every record.

use vstd::prelude::*;

use crate::error::Error;
use crate::principal::{is_text_byte, text_of, valid_principal_bytes, Principal};
use crate::types::{UserMetadata, UserMetadataSpec};

verus! {

/// Bytes of `{"user_canister_id":"`, the opening of a record.
pub open spec fn record_pre() -> Seq<u8> {
    seq![123u8, 34, 117, 115, 101, 114, 95, 99, 97, 110, 105, 115, 116, 101, 114, 95, 105, 100, 34, 58, 34]
}

/// Bytes of `","user_name":"`, between the two fields.
pub open spec fn record_mid() -> Seq<u8> {
    seq![34u8, 44, 34, 117, 115, 101, 114, 95, 110, 97, 109, 101, 34, 58, 34]
}

/// Bytes of `"}`, the close of a record.
pub open spec fn record_suf() -> Seq<u8> {
    seq![34u8, 125]
}

/// The lower-case hex digit for a nibble.
pub open spec fn spec_hex_digit(x: u8) -> u8 {
    if x < 10 {
        (48 + x) as u8
    } else {
        (87 + x) as u8
    }
}

/// How one byte of a display name is escaped inside the JSON string:
/// quote and backslash get a backslash escape, control bytes a `\u00xx`
/// escape, everything else stands as itself.
pub open spec fn esc_byte(b: u8) -> Seq<u8> {
    if b == 34 {
        seq![92u8, 34]
    } else if b == 92 {
        seq![92u8, 92]
    } else if b < 32 {
        seq![92u8, 117, 48, 48, spec_hex_digit(b / 16), spec_hex_digit(b % 16)]
    } else {
        seq![b]
    }
}

/// The escaped form of a whole display name.
pub open spec fn esc(s: Seq<u8>) -> Seq<u8>
    decreases s.len(),
{
    if s.len() == 0 {
        Seq::empty()
    } else {
        esc_byte(s[0]) + esc(s.skip(1))
    }
}

/// Every byte of the text lies in the principal-text alphabet.
pub open spec fn text_alphabet(t: Seq<u8>) -> bool {
    forall|i: int| 0 <= i < t.len() ==> is_text_byte(#[trigger] t[i])
}

/// The canonical stored byte form of a record.
pub open spec fn spec_encode(ms: UserMetadataSpec) -> Seq<u8> {
    record_pre() + text_of(ms.canister) + record_mid() + esc(ms.name) + record_suf()
}

/// `b` is the canonical encoding of the record `ms`.  The alphabet fact about
/// the principal text travels with it; `encode_record` establishes it.
pub open spec fn canonical_encoding(b: Seq<u8>, ms: UserMetadataSpec) -> bool {
    &&& valid_principal_bytes(ms.canister)
    &&& text_alphabet(text_of(ms.canister))
    &&& b == spec_encode(ms)
}

/// Escaping distributes over concatenation.
proof fn lemma_esc_append(a: Seq<u8>, b: Seq<u8>)
    ensures
        esc(a + b) == esc(a) + esc(b),
    decreases a.len(),
{
    if a.len() == 0 {
        assert(a + b =~= b);
        assert(esc(a) + esc(b) =~= esc(b));
    } else {
        assert((a + b).skip(1) =~= a.skip(1) + b);
        lemma_esc_append(a.skip(1), b);
        assert(esc(a + b) =~= esc_byte(a[0]) + (esc(a.skip(1)) + esc(b)));
        assert(esc_byte(a[0]) + (esc(a.skip(1)) + esc(b)) =~= (esc_byte(a[0]) + esc(a.skip(1))) + esc(b));
    }
}

/// Escaping one more byte extends the escaped prefix by that byte's group.
proof fn lemma_esc_take_succ(s: Seq<u8>, k: int)
    requires
        0 <= k < s.len(),
    ensures
        esc(s.take(k + 1)) == esc(s.take(k)) + esc_byte(s[k]),
{
    assert(s.take(k + 1) =~= s.take(k) + seq![s[k]]);
    lemma_esc_append(s.take(k), seq![s[k]]);
    assert(seq![s[k]].skip(1) =~= Seq::<u8>::empty());
    assert(esc(Seq::<u8>::empty()) == Seq::<u8>::empty());
    assert(esc(seq![s[k]]) == esc_byte(seq![s[k]][0]) + esc(seq![s[k]].skip(1)));
    assert(esc(seq![s[k]]) =~= esc_byte(s[k]));
}

/// The whole name splits around position `k`.
proof fn lemma_esc_split(s: Seq<u8>, k: int)
    requires
        0 <= k <= s.len(),
    ensures
        esc(s) == esc(s.take(k)) + esc(s.skip(k)),
{
    assert(s =~= s.take(k) + s.skip(k));
    lemma_esc_append(s.take(k), s.skip(k));
}

/// The head group of an escaped suffix.
proof fn lemma_esc_skip_head(s: Seq<u8>, k: int)
    requires
        0 <= k < s.len(),
    ensures
        esc(s.skip(k)) == esc_byte(s[k]) + esc(s.skip(k + 1)),
{
    assert(s.skip(k).len() > 0);
    assert(s.skip(k)[0] == s[k]);
    assert(s.skip(k).skip(1) =~= s.skip(k + 1));
}

/// The lower-case hex digit of a nibble, as executable code.
fn hex_digit(x: u8) -> (r: u8)
    requires
        x < 16,
    ensures
        r == spec_hex_digit(x),
{
    if x < 10 {
        48 + x
    } else {
        87 + x
    }
}

/// Append the record opening to `out`.
fn push_pre(out: &mut Vec<u8>)
    ensures
        final(out)@ == old(out)@ + record_pre(),
{
    out.push(123);
    out.push(34);
    out.push(117);
    out.push(115);
    out.push(101);
    out.push(114);
    out.push(95);
    out.push(99);
    out.push(97);
    out.push(110);
    out.push(105);
    out.push(115);
    out.push(116);
    out.push(101);
    out.push(114);
    out.push(95);
    out.push(105);
    out.push(100);
    out.push(34);
    out.push(58);
    out.push(34);
    proof {
        assert(final(out)@ =~= old(out)@ + record_pre());
    }
}

/// Append the field separator to `out`.
fn push_mid(out: &mut Vec<u8>)
    ensures
        final(out)@ == old(out)@ + record_mid(),
{
    out.push(34);
    out.push(44);
    out.push(34);
    out.push(117);
    out.push(115);
    out.push(101);
    out.push(114);
    out.push(95);
    out.push(110);
    out.push(97);
    out.push(109);
    out.push(101);
    out.push(34);
    out.push(58);
    out.push(34);
    proof {
        assert(final(out)@ =~= old(out)@ + record_mid());
    }
}

/// Append the record close to `out`.
fn push_suf(out: &mut Vec<u8>)
    ensures
        final(out)@ == old(out)@ + record_suf(),
{
    out.push(34);
    out.push(125);
    proof {
        assert(final(out)@ =~= old(out)@ + record_suf());
    }
}

/// Append the escaped form of `name` to `out`.
fn append_escaped(out: &mut Vec<u8>, name: &Vec<u8>)
    ensures
        final(out)@ == old(out)@ + esc(name@),
{
    let end = name.len();
    let mut k: usize = 0;
    while k < end
        invariant
            k <= end,
            end == name@.len(),
            out@ == old(out)@ + esc(name@.take(k as int)),
        decreases end - k,
    {
        let b = name[k];
        if b == 34 {
            out.push(92);
            out.push(34);
        } else if b == 92 {
            out.push(92);
            out.push(92);
        } else if b < 32 {
            out.push(92);
            out.push(117);
            out.push(48);
            out.push(48);
            out.push(hex_digit(b / 16));
            out.push(hex_digit(b % 16));
        } else {
            out.push(b);
        }
        proof {
            lemma_esc_take_succ(name@, k as int);
            assert(out@ =~= old(out)@ + esc(name@.take(k + 1)));
        }
        k += 1;
    }
    proof {
        assert(name@.take(end as int) =~= name@);
    }
}

/// Encode a record into its canonical stored byte form.
pub fn encode_record(m: &UserMetadata) -> (r: Vec<u8>)
    requires
        m.wf(),
    ensures
        r@ == spec_encode(m@),
        canonical_encoding(r@, m@),
{
    let mut out: Vec<u8> = Vec::new();
    push_pre(&mut out);
    let text = m.user_canister_id.to_text();
    out.extend_from_slice(text.as_slice());
    push_mid(&mut out);
    append_escaped(&mut out, &m.user_name);
    push_suf(&mut out);
    proof {
        assert(out@ =~= spec_encode(m@));
    }
    out
}


/// Build the record opening as a vector.
fn pre_vec() -> (r: Vec<u8>)
    ensures
        r@ == record_pre(),
{
    let mut out: Vec<u8> = Vec::new();
    push_pre(&mut out);
    out
}

/// Build the field separator as a vector.
fn mid_vec() -> (r: Vec<u8>)
    ensures
        r@ == record_mid(),
{
    let mut out: Vec<u8> = Vec::new();
    push_mid(&mut out);
    out
}

/// Whether `bytes[at..]` starts with `pat`.
fn match_at(bytes: &[u8], at: usize, pat: &Vec<u8>) -> (r: bool)
    requires
        at <= bytes@.len(),
    ensures
        r == (at + pat@.len() <= bytes@.len()
            && bytes@.subrange(at as int, at + pat@.len()) == pat@),
{
    let n = bytes.len();
    let plen = pat.len();
    if n - at < plen {
        return false;
    }
    let mut j: usize = 0;
    while j < plen
        invariant
            j <= plen,
            plen == pat@.len(),
            n == bytes@.len(),
            at + plen <= n,
            forall|t: int| 0 <= t < j ==> bytes@[at + t] == pat@[t],
        decreases plen - j,
    {
        if *vstd::slice::slice_index_get(bytes, at + j) != pat[j] {
            proof {
                assert(bytes@.subrange(at as int, at + pat@.len())[j as int] == bytes@[at + j]);
            }
            return false;
        }
        j += 1;
    }
    proof {
        assert(bytes@.subrange(at as int, at + pat@.len()) =~= pat@);
    }
    true
}

/// The nibble a lower-case hex digit stands for.
fn unhex(d: u8) -> (r: Option<u8>)
    ensures
        r matches Some(x) ==> x < 16 && spec_hex_digit(x) == d,
        r is None ==> forall|x: u8| x < 16 ==> spec_hex_digit(x) != d,
{
    if 48 <= d && d <= 57 {
        Some(d - 48)
    } else if 97 <= d && d <= 102 {
        Some(d - 87)
    } else {
        None
    }
}

/// Positions and bytes of every region of a canonical encoding.
proof fn lemma_encode_index(ms: UserMetadataSpec)
    ensures
        spec_encode(ms).len() == 38 + text_of(ms.canister).len() + esc(ms.name).len(),
        forall|j: int| 0 <= j < 21 ==> #[trigger] spec_encode(ms)[j] == record_pre()[j],
        forall|j: int| 0 <= j < text_of(ms.canister).len()
            ==> #[trigger] spec_encode(ms)[21 + j] == text_of(ms.canister)[j],
        forall|j: int| 0 <= j < 15
            ==> #[trigger] spec_encode(ms)[21 + text_of(ms.canister).len() + j] == record_mid()[j],
        forall|j: int| 0 <= j < esc(ms.name).len()
            ==> #[trigger] spec_encode(ms)[36 + text_of(ms.canister).len() + j] == esc(ms.name)[j],
        forall|j: int| 0 <= j < 2
            ==> #[trigger] spec_encode(ms)[36 + text_of(ms.canister).len() + esc(ms.name).len() + j]
                == record_suf()[j],
{
    let t = text_of(ms.canister);
    let e = esc(ms.name);
    let whole = spec_encode(ms);
    assert(whole =~= record_pre() + t + record_mid() + e + record_suf());
    assert(record_pre().len() == 21);
    assert(record_mid().len() == 15);
    assert(record_suf().len() == 2);
}

/// Decode a stored byte form back into the record it encodes.
///
/// Succeeds exactly on canonical encodings: on `encode_record(m)`'s output
/// it returns `m`, and whenever it succeeds the input was the canonical
/// encoding of the result.  Anything else is a serialization error.
#[verifier::loop_isolation(false)]
#[verifier::rlimit(100)]
pub fn decode_record(bytes: &[u8]) -> (r: Result<UserMetadata, Error>)
    ensures
        r matches Ok(m) ==> m.wf() && bytes@ == spec_encode(m@),
        r matches Err(e) ==> e == Error::Serialization,
        forall|ms: UserMetadataSpec| #[trigger] canonical_encoding(bytes@, ms)
            ==> (r matches Ok(m) && m@ == ms),
{
    let n = bytes.len();
    let pre = pre_vec();
    if !match_at(bytes, 0, &pre) {
        proof {
            assert forall|ms: UserMetadataSpec| !canonical_encoding(bytes@, ms) by {
                if canonical_encoding(bytes@, ms) {
                    lemma_encode_index(ms);
                    assert(bytes@.subrange(0, 21) =~= record_pre());
                }
            }
        }
        return Err(Error::Serialization);
    }

    // scan for the quote that closes the principal text
    let mut q: usize = 21;
    while q < n && *vstd::slice::slice_index_get(bytes, q) != 34
        invariant
            21 <= q <= n,
            forall|j: int| 21 <= j < q ==> bytes@[j] != 34,
            forall|ms: UserMetadataSpec| #[trigger] canonical_encoding(bytes@, ms)
                ==> q <= 21 + text_of(ms.canister).len(),
        decreases n - q,
    {
        proof {
            assert forall|ms: UserMetadataSpec| #[trigger] canonical_encoding(bytes@, ms)
                implies q + 1 <= 21 + text_of(ms.canister).len() by {
                lemma_encode_index(ms);
                if q == 21 + text_of(ms.canister).len() {
                    assert(bytes@[q as int] == record_mid()[0]);
                }
            }
        }
        q += 1;
    }
    if q == n {
        proof {
            assert forall|ms: UserMetadataSpec| !canonical_encoding(bytes@, ms) by {
                if canonical_encoding(bytes@, ms) {
                    lemma_encode_index(ms);
                    assert(bytes@[21 + text_of(ms.canister).len() as int] == record_mid()[0]);
                }
            }
        }
        return Err(Error::Serialization);
    }
    proof {
        // at the closing quote, the text region is exactly [21, q)
        assert forall|ms: UserMetadataSpec| #[trigger] canonical_encoding(bytes@, ms)
            implies q == 21 + text_of(ms.canister).len() by {
            lemma_encode_index(ms);
            if q < 21 + text_of(ms.canister).len() {
                assert(bytes@[q as int] == text_of(ms.canister)[q - 21]);
                assert(is_text_byte(text_of(ms.canister)[q - 21]));
            }
        }
    }

    let text = vstd::slice::slice_subrange(bytes, 21, q);
    proof {
        assert forall|ms: UserMetadataSpec| #[trigger] canonical_encoding(bytes@, ms)
            implies text@ == text_of(ms.canister) by {
            lemma_encode_index(ms);
            assert(text@ =~= text_of(ms.canister));
        }
    }
    let p = match Principal::from_text(text) {
        Ok(p) => p,
        Err(_) => {
            return Err(Error::Serialization);
        },
    };

    let mid = mid_vec();
    if !match_at(bytes, q, &mid) {
        proof {
            assert forall|ms: UserMetadataSpec| !canonical_encoding(bytes@, ms) by {
                if canonical_encoding(bytes@, ms) {
                    lemma_encode_index(ms);
                    assert(bytes@.subrange(q as int, q + 15) =~= record_mid());
                }
            }
        }
        return Err(Error::Serialization);
    }
    let pos = q + 15;

    // parse the escaped display name
    let mut name: Vec<u8> = Vec::new();
    let mut i: usize = pos;
    while i < n
        invariant
            pos <= i <= n,
            forall|ms: UserMetadataSpec| #[trigger] canonical_encoding(bytes@, ms) ==> {
                &&& p@ == ms.canister
                &&& pos == 36 + text_of(ms.canister).len()
                &&& name@.len() <= ms.name.len()
                &&& name@ == ms.name.take(name@.len() as int)
                &&& i == pos + esc(ms.name.take(name@.len() as int)).len()
            },
        decreases n - i,
    {
        let ghost name0 = name@;
        let ghost i0 = i as int;
        let b = *vstd::slice::slice_index_get(bytes, i);
        proof {
            // under the canonical hypothesis, relate the bytes at `i` to the
            // escape group of the next name byte
            assert forall|ms: UserMetadataSpec| #[trigger] canonical_encoding(bytes@, ms)
                implies {
                    let k = name0.len() as int;
                    k < ms.name.len() ==> {
                        let x = ms.name[k];
                        forall|j: int| 0 <= j < esc_byte(x).len()
                            ==> i0 + j < n && bytes@[i0 + j] == esc_byte(x)[j]
                                && i0 + esc_byte(x).len() + 2 <= n
                    }
                } by {
                lemma_encode_index(ms);
                let k = name0.len() as int;
                if k < ms.name.len() {
                    let x = ms.name[k];
                    lemma_esc_split(ms.name, k);
                    lemma_esc_skip_head(ms.name, k);
                    assert forall|j: int| 0 <= j < esc_byte(x).len()
                        implies i0 + j < n && bytes@[i0 + j] == esc_byte(x)[j]
                            && i0 + esc_byte(x).len() + 2 <= n by {
                        let off = esc(ms.name.take(k)).len();
                        assert(esc(ms.name)[off + j] == esc_byte(x)[j]);
                        assert(bytes@[36 + text_of(ms.canister).len() + (off + j)]
                            == esc(ms.name)[off + j]);
                    }
                }
            }
            // if the whole name has been read, the next byte closes the string
            assert forall|ms: UserMetadataSpec| #[trigger] canonical_encoding(bytes@, ms)
                implies (name0.len() == ms.name.len() ==> bytes@[i0] == 34 && i0 + 2 == n)
            by {
                lemma_encode_index(ms);
                if name0.len() == ms.name.len() {
                    assert(ms.name.take(name0.len() as int) =~= ms.name);
                    assert(bytes@[36 + text_of(ms.canister).len() + esc(ms.name).len() as int + 0]
                        == record_suf()[0]);
                    assert(bytes@[36 + text_of(ms.canister).len() + esc(ms.name).len() as int + 1]
                        == record_suf()[1]);
                }
            }
        }
        if b == 34 {
            // end of the name: expect the record close and nothing after
            proof {
                assert forall|ms: UserMetadataSpec| #[trigger] canonical_encoding(bytes@, ms)
                    implies name0 == ms.name && i0 + 2 == n && bytes@[i0 + 1] == 125 by {
                    lemma_encode_index(ms);
                    let k = name0.len() as int;
                    if k < ms.name.len() {
                        let x = ms.name[k];
                        assert(bytes@[i0] == esc_byte(x)[0]);
                        assert(esc_byte(x)[0] != 34);
                    }
                    assert(name0 =~= ms.name);
                    assert(bytes@[36 + text_of(ms.canister).len() + esc(ms.name).len() as int + 1]
                        == record_suf()[1]);
                }
            }
            if n - i != 2 {
                return Err(Error::Serialization);
            }
            if *vstd::slice::slice_index_get(bytes, i + 1) != 125 {
                return Err(Error::Serialization);
            }
            let m = UserMetadata { user_canister_id: p, user_name: name };
            let enc = encode_record(&m);
            proof {
                // on a canonical encoding the re-encoding reproduces the input
                assert forall|ms: UserMetadataSpec| #[trigger] canonical_encoding(bytes@, ms)
                    implies enc@ == bytes@ by {
                    assert(m@ == ms);
                }
                assert(bytes@.subrange(0, n as int) =~= bytes@);
            }
            if enc.len() != n {
                return Err(Error::Serialization);
            }
            if !match_at(bytes, 0, &enc) {
                return Err(Error::Serialization);
            }
            return Ok(m);
        } else if b == 92 {
            if n - i < 2 {
                return Err(Error::Serialization);
            }
            let c = *vstd::slice::slice_index_get(bytes, i + 1);
            if c == 34 || c == 92 {
                name.push(c);
                proof {
                    assert forall|ms: UserMetadataSpec| #[trigger] canonical_encoding(bytes@, ms)
                        implies {
                            &&& name@.len() <= ms.name.len()
                            &&& name@ == ms.name.take(name@.len() as int)
                            &&& i0 + 2 == pos + esc(ms.name.take(name@.len() as int)).len()
                        } by {
                        let k = name0.len() as int;
                        assert(k < ms.name.len());
                        let x = ms.name[k];
                        assert(esc_byte(x)[0] == 92);
                        assert(x == c);
                        lemma_esc_take_succ(ms.name, k);
                        assert(name@ =~= ms.name.take(k + 1));
                    }
                }
                i += 2;
            } else if c == 117 {
                proof {
                    // under the canonical hypothesis the whole six-byte escape
                    // group, `00` digits included, is present
                    assert forall|ms: UserMetadataSpec| #[trigger] canonical_encoding(bytes@, ms)
                        implies n - i0 >= 6 && bytes@[i0 + 2] == 48 && bytes@[i0 + 3] == 48 by {
                        let k = name0.len() as int;
                        assert(k < ms.name.len());
                        let x = ms.name[k];
                        assert(esc_byte(x)[0] == 92);
                        assert(x < 32);
                        assert(bytes@[i0 + 2] == esc_byte(x)[2]);
                        assert(bytes@[i0 + 3] == esc_byte(x)[3]);
                    }
                }
                if n - i < 6 {
                    return Err(Error::Serialization);
                }
                if *vstd::slice::slice_index_get(bytes, i + 2) != 48
                    || *vstd::slice::slice_index_get(bytes, i + 3) != 48 {
                    return Err(Error::Serialization);
                }
                let hi = match unhex(*vstd::slice::slice_index_get(bytes, i + 4)) {
                    Some(x) => x,
                    None => {
                        proof {
                            assert forall|ms: UserMetadataSpec| !canonical_encoding(bytes@, ms) by {
                                if canonical_encoding(bytes@, ms) {
                                    let k = name0.len() as int;
                                    assert(k < ms.name.len());
                                    let x = ms.name[k];
                                    assert(esc_byte(x)[0] == 92);
                                    assert(x < 32);
                                    assert(bytes@[i0 + 4] == spec_hex_digit(x / 16));
                                }
                            }
                        }
                        return Err(Error::Serialization);
                    },
                };
                let lo = match unhex(*vstd::slice::slice_index_get(bytes, i + 5)) {
                    Some(x) => x,
                    None => {
                        proof {
                            assert forall|ms: UserMetadataSpec| !canonical_encoding(bytes@, ms) by {
                                if canonical_encoding(bytes@, ms) {
                                    let k = name0.len() as int;
                                    assert(k < ms.name.len());
                                    let x = ms.name[k];
                                    assert(esc_byte(x)[0] == 92);
                                    assert(x < 32);
                                    assert(bytes@[i0 + 5] == spec_hex_digit(x % 16));
                                }
                            }
                        }
                        return Err(Error::Serialization);
                    },
                };
                let v = 16 * hi + lo;
                name.push(v);
                proof {
                    assert forall|ms: UserMetadataSpec| #[trigger] canonical_encoding(bytes@, ms)
                        implies {
                            &&& name@.len() <= ms.name.len()
                            &&& name@ == ms.name.take(name@.len() as int)
                            &&& i0 + 6 == pos + esc(ms.name.take(name@.len() as int)).len()
                        } by {
                        let k = name0.len() as int;
                        assert(k < ms.name.len());
                        let x = ms.name[k];
                        assert(esc_byte(x)[0] == 92);
                        assert(x < 32);
                        assert(spec_hex_digit(hi) == spec_hex_digit(x / 16));
                        assert(spec_hex_digit(lo) == spec_hex_digit(x % 16));
                        assert(hi == x / 16);
                        assert(lo == x % 16);
                        assert(v == x) by {
                            vstd::arithmetic::div_mod::lemma_fundamental_div_mod(x as int, 16);
                        }
                        lemma_esc_take_succ(ms.name, k);
                        assert(name@ =~= ms.name.take(k + 1));
                    }
                }
                i += 6;
            } else {
                proof {
                    assert forall|ms: UserMetadataSpec| !canonical_encoding(bytes@, ms) by {
                        if canonical_encoding(bytes@, ms) {
                            let k = name0.len() as int;
                            assert(k < ms.name.len());
                            let x = ms.name[k];
                            assert(esc_byte(x)[0] == 92);
                            assert(esc_byte(x)[1] == c);
                        }
                    }
                }
                return Err(Error::Serialization);
            }
        } else if b < 32 {
            proof {
                assert forall|ms: UserMetadataSpec| !canonical_encoding(bytes@, ms) by {
                    if canonical_encoding(bytes@, ms) {
                        let k = name0.len() as int;
                        assert(k < ms.name.len());
                        let x = ms.name[k];
                        assert(esc_byte(x)[0] == b);
                    }
                }
            }
            return Err(Error::Serialization);
        } else {
            name.push(b);
            proof {
                assert forall|ms: UserMetadataSpec| #[trigger] canonical_encoding(bytes@, ms)
                    implies {
                        &&& name@.len() <= ms.name.len()
                        &&& name@ == ms.name.take(name@.len() as int)
                        &&& i0 + 1 == pos + esc(ms.name.take(name@.len() as int)).len()
                    } by {
                    let k = name0.len() as int;
                    assert(k < ms.name.len());
                    let x = ms.name[k];
                    assert(esc_byte(x)[0] == b);
                    assert(x == b);
                    lemma_esc_take_succ(ms.name, k);
                    assert(name@ =~= ms.name.take(k + 1));
                }
            }
            i += 1;
        }
    }
    // ran off the end without a closing quote
    proof {
        assert forall|ms: UserMetadataSpec| !canonical_encoding(bytes@, ms) by {
            if canonical_encoding(bytes@, ms) {
                lemma_encode_index(ms);
                let k = name@.len() as int;
                lemma_esc_split(ms.name, k);
                assert(esc(ms.name.take(k)).len() <= esc(ms.name).len());
            }
        }
    }
    Err(Error::Serialization)
}

} // verus!
