//! Fragmentation of a local byte stream to the mesh payload limit.
//!
//! One read from the local endpoint yields up to a buffer's worth of
//! bytes; the mesh transport accepts at most `mdu` bytes per
//! submission.  The bytes are split into consecutive fragments in
//! order, none larger than `mdu`, whose concatenation is exactly the
//! bytes read: nothing is lost, duplicated or reordered.

use vstd::prelude::*;
use vstd::arithmetic::div_mod::lemma_fundamental_div_mod;
use vstd::slice::slice_subrange;
use vstd::slice::slice_to_vec;

verus! {

/// Number of fragments of size at most `mdu` needed to cover `len`
/// bytes: `len / mdu`, rounded up.
pub open spec fn fragment_count(len: nat, mdu: nat) -> nat
    recommends
        mdu >= 1,
{
    (((len + mdu - 1) as int) / (mdu as int)) as nat
}

/// The `j`-th fragment of `data`: the bytes from `j * mdu` up to the
/// next fragment boundary or the end of the data, whichever is first.
pub open spec fn fragment_at(data: Seq<u8>, mdu: nat, j: int) -> Seq<u8>
    recommends
        mdu >= 1,
        0 <= j < fragment_count(data.len(), mdu),
{
    if j * mdu + mdu <= data.len() {
        data.subrange(j * mdu, j * mdu + mdu)
    } else {
        data.subrange(j * mdu, data.len() as int)
    }
}

/// All fragments of `data`, in byte order.
pub open spec fn spec_fragments(data: Seq<u8>, mdu: nat) -> Seq<Seq<u8>>
    recommends
        mdu >= 1,
{
    Seq::new(fragment_count(data.len(), mdu), |j: int| fragment_at(data, mdu, j))
}

/// Ordered concatenation of a sequence of fragments.
pub open spec fn concat_fragments(fs: Seq<Seq<u8>>) -> Seq<u8>
    decreases fs.len(),
{
    if fs.len() == 0 {
        Seq::empty()
    } else {
        concat_fragments(fs.drop_last()) + fs.last()
    }
}

/// `fragment_count(len, mdu) * mdu` covers `len` but overshoots by
/// less than one fragment.
pub proof fn lemma_fragment_count_bounds(len: nat, mdu: nat)
    requires
        mdu >= 1,
    ensures
        len <= fragment_count(len, mdu) * mdu < len + mdu,
        len == 0 ==> fragment_count(len, mdu) == 0,
{
    let a = (len + mdu - 1) as int;
    let m = mdu as int;
    let c = a / m;
    lemma_fundamental_div_mod(a, m);
    assert(0 <= a % m < m) by (nonlinear_arith)
        requires
            a >= 0,
            m >= 1,
    ;
    assert(c * m == a - a % m);
    if len == 0 {
        assert(c >= 0 && c * m < m);
        assert(c == 0) by (nonlinear_arith)
            requires
                c >= 0,
                m >= 1,
                c * m < m,
        ;
    }
}

/// Multiplying both sides of a strict inequality by a positive factor
/// cancels: `a * m < b * m` forces `a < b`.
proof fn lemma_mul_lt_cancel(a: int, b: int, m: int)
    requires
        m >= 1,
        a * m < b * m,
    ensures
        a < b,
{
    assert(a < b) by (nonlinear_arith)
        requires
            m >= 1,
            a * m < b * m,
    ;
}

/// `a <= b` carries over to products with a nonnegative factor.
proof fn lemma_mul_le_mono(a: int, b: int, m: int)
    requires
        a <= b,
        m >= 0,
    ensures
        a * m <= b * m,
{
    assert(a * m <= b * m) by (nonlinear_arith)
        requires
            a <= b,
            m >= 0,
    ;
}

/// One step of distributing a fragment boundary: `(a + 1) * m`.
proof fn lemma_mul_distrib_one(a: int, m: int)
    ensures
        (a + 1) * m == a * m + m,
{
    assert((a + 1) * m == a * m + m) by (nonlinear_arith);
}

/// Concatenating the first `j` fragments of `data` yields exactly the
/// first `j * mdu` bytes (or all of `data`, once past the end).
proof fn lemma_concat_prefix(data: Seq<u8>, mdu: nat, j: int)
    requires
        mdu >= 1,
        0 <= j <= fragment_count(data.len(), mdu),
    ensures
        concat_fragments(spec_fragments(data, mdu).take(j)) =~= data.take(
            if j * mdu <= data.len() {
                j * mdu
            } else {
                data.len() as int
            },
        ),
    decreases j,
{
    let fs = spec_fragments(data, mdu);
    let m = mdu as int;
    let len = data.len() as int;
    let count = fragment_count(data.len(), mdu) as int;
    lemma_fragment_count_bounds(data.len(), mdu);
    if j == 0 {
        assert(fs.take(0) =~= Seq::<Seq<u8>>::empty());
    } else {
        lemma_concat_prefix(data, mdu, j - 1);
        // The first j - 1 fragments end before the data does.
        lemma_mul_le_mono(j - 1, count - 1, m);
        assert((count - 1) * m == count * m - m) by {
            lemma_mul_distrib_one(count - 1, m);
        }
        assert((j - 1) * m < len);
        assert(fs.take(j).drop_last() =~= fs.take(j - 1));
        assert(fs.take(j).last() == fragment_at(data, mdu, j - 1));
        assert(j * m == (j - 1) * m + m) by {
            lemma_mul_distrib_one(j - 1, m);
        }
        assert(concat_fragments(fs.take(j)) == concat_fragments(fs.take(j - 1)) + fragment_at(
            data,
            mdu,
            j - 1,
        ));
    }
}

/// The ordered concatenation of the fragments of `data` is `data`
/// itself, and every fragment is nonempty and no larger than `mdu`.
pub proof fn lemma_fragments_reassemble(data: Seq<u8>, mdu: nat)
    requires
        mdu >= 1,
    ensures
        concat_fragments(spec_fragments(data, mdu)) == data,
        forall|j: int|
            0 <= j < spec_fragments(data, mdu).len() ==> 0 < (#[trigger] spec_fragments(
                data,
                mdu,
            )[j]).len() <= mdu,
{
    let fs = spec_fragments(data, mdu);
    let m = mdu as int;
    let len = data.len() as int;
    let count = fragment_count(data.len(), mdu) as int;
    lemma_fragment_count_bounds(data.len(), mdu);
    lemma_concat_prefix(data, mdu, count);
    assert(fs.take(count) =~= fs);
    if count * m <= len {
        assert(count * m == len);
    }
    assert(data.take(len) =~= data);
    assert(concat_fragments(fs) =~= data);
    assert forall|j: int| 0 <= j < fs.len() implies 0 < (#[trigger] fs[j]).len() <= mdu by {
        lemma_mul_le_mono(j, count - 1, m);
        lemma_mul_distrib_one(count - 1, m);
        assert(j * m < len);
    }
}

/// Splits `data` into consecutive fragments of at most `mdu` bytes,
/// preserving byte order.
pub fn fragment(data: &[u8], mdu: usize) -> (frags: Vec<Vec<u8>>)
    requires
        mdu >= 1,
    ensures
        frags@.len() == fragment_count(data@.len(), mdu as nat),
        forall|j: int|
            0 <= j < frags@.len() ==> (#[trigger] frags@[j])@ == spec_fragments(
                data@,
                mdu as nat,
            )[j],
{
    let len = data.len();
    let ghost m = mdu as int;
    let ghost count = fragment_count(data@.len(), mdu as nat) as int;
    proof {
        lemma_fragment_count_bounds(data@.len(), mdu as nat);
    }
    let mut frags: Vec<Vec<u8>> = Vec::new();
    let mut i: usize = 0;
    while i < len
        invariant
            mdu >= 1,
            len == data@.len(),
            i <= len,
            frags@.len() <= count,
            count == fragment_count(data@.len(), mdu as nat),
            m == mdu as int,
            if i < len {
                i as int == frags@.len() * m
            } else {
                frags@.len() == count
            },
            forall|k: int|
                0 <= k < frags@.len() ==> (#[trigger] frags@[k])@ == spec_fragments(
                    data@,
                    mdu as nat,
                )[k],
        decreases len - i,
    {
        let ghost j = frags@.len() as int;
        proof {
            lemma_fragment_count_bounds(data@.len(), mdu as nat);
            // i == j * m and j * m < len, so j has not reached count.
            lemma_mul_lt_cancel(j, count, m);
            lemma_mul_distrib_one(j, m);
        }
        let remaining = len - i;
        let chunk_end = if remaining <= mdu {
            len
        } else {
            i + mdu
        };
        let piece = slice_to_vec(slice_subrange(data, i, chunk_end));
        frags.push(piece);
        proof {
            if chunk_end == len {
                // j * m < len <= (j + 1) * m pins the fragment count.
                lemma_mul_distrib_one(count - 1, m);
                assert((count - 1) * m < len);
                assert(len <= (j + 1) * m);
                lemma_mul_lt_cancel(count - 1, j + 1, m);
            }
            assert(spec_fragments(data@, mdu as nat)[j] == fragment_at(data@, mdu as nat, j));
        }
        i = chunk_end;
    }
    proof {
        if len == 0 {
            lemma_fragment_count_bounds(data@.len(), mdu as nat);
        }
    }
    frags
}

} // verus!
