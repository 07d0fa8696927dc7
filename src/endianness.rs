use vstd::prelude::*;

verus! {

/// Position, in the input, of the byte that lands at `i` when each
/// `chunk`-byte chunk is reversed in place.
pub open spec fn chunk_mirror(i: int, chunk: int) -> int {
    (i / chunk) * chunk + (chunk - 1 - i % chunk)
}

/// `b` with each consecutive `chunk`-byte chunk reversed, chunk order kept.
pub open spec fn chunks_reversed(b: Seq<u8>, chunk: int) -> Seq<u8> {
    Seq::new(b.len(), |i: int| b[chunk_mirror(i, chunk)])
}

proof fn lemma_chunk_mirror_bounds(i: int, chunk: int, len: int)
    requires
        0 < chunk,
        0 <= i < len,
        len % chunk == 0,
    ensures
        0 <= chunk_mirror(i, chunk) < len,
        chunk_mirror(i, chunk) / chunk == i / chunk,
        chunk_mirror(i, chunk) % chunk == chunk - 1 - i % chunk,
        chunk_mirror(chunk_mirror(i, chunk), chunk) == i,
{
    let q = i / chunk;
    let r = i % chunk;
    vstd::arithmetic::div_mod::lemma_fundamental_div_mod(i, chunk);
    vstd::arithmetic::div_mod::lemma_fundamental_div_mod(len, chunk);
    let m = q * chunk + (chunk - 1 - r);
    vstd::arithmetic::div_mod::lemma_fundamental_div_mod_converse(m, chunk, q, chunk - 1 - r);
    assert(q < len / chunk) by (nonlinear_arith)
        requires
            i == q * chunk + r,
            0 <= r < chunk,
            i < len,
            len == chunk * (len / chunk),
            0 < chunk,
    ;
    assert(m < len) by (nonlinear_arith)
        requires
            m == q * chunk + (chunk - 1 - r),
            q + 1 <= len / chunk,
            len == chunk * (len / chunk),
            0 <= r,
            0 < chunk,
    ;
    assert(0 <= m) by (nonlinear_arith)
        requires
            m == q * chunk + (chunk - 1 - r),
            0 <= q,
            r < chunk,
            0 < chunk,
    ;
}

/// Reverses the bytes of each `CHUNK_SIZE`-byte chunk of `bytes`, keeping the
/// order of the chunks, into a fresh array. This turns big-endian field
/// elements into little-endian ones and back.
pub fn convert_endianness<const CHUNK_SIZE: usize, const ARRAY_SIZE: usize>(
    bytes: &[u8; ARRAY_SIZE],
) -> (r: [u8; ARRAY_SIZE])
    requires
        CHUNK_SIZE > 0,
        ARRAY_SIZE % CHUNK_SIZE == 0,
    ensures
        r@ == chunks_reversed(bytes@, CHUNK_SIZE as int),
{
    let mut result: [u8; ARRAY_SIZE] = vstd::array::array_fill_for_copy_types(0u8);
    let mut start: usize = 0;
    while start < ARRAY_SIZE
        invariant
            0 < CHUNK_SIZE,
            ARRAY_SIZE % CHUNK_SIZE == 0,
            bytes@.len() == ARRAY_SIZE,
            result@.len() == ARRAY_SIZE,
            start <= ARRAY_SIZE,
            start % CHUNK_SIZE == 0,
            forall|j: int|
                0 <= j < start ==> result@[j] == bytes@[chunk_mirror(j, CHUNK_SIZE as int)],
        decreases ARRAY_SIZE - start,
    {
        proof {
            vstd::arithmetic::div_mod::lemma_fundamental_div_mod(ARRAY_SIZE as int, CHUNK_SIZE as int);
            vstd::arithmetic::div_mod::lemma_fundamental_div_mod(start as int, CHUNK_SIZE as int);
            assert(start + CHUNK_SIZE <= ARRAY_SIZE) by (nonlinear_arith)
                requires
                    start < ARRAY_SIZE,
                    start == CHUNK_SIZE * (start / CHUNK_SIZE),
                    ARRAY_SIZE == CHUNK_SIZE * (ARRAY_SIZE / CHUNK_SIZE),
                    0 < CHUNK_SIZE,
            ;
        }
        let mut i: usize = 0;
        while i < CHUNK_SIZE
            invariant
                0 < CHUNK_SIZE,
                bytes@.len() == ARRAY_SIZE,
                result@.len() == ARRAY_SIZE,
                start + CHUNK_SIZE <= ARRAY_SIZE,
                start % CHUNK_SIZE == 0,
                i <= CHUNK_SIZE,
                forall|j: int|
                    0 <= j < start + i ==> result@[j] == bytes@[chunk_mirror(
                        j,
                        CHUNK_SIZE as int,
                    )],
            decreases CHUNK_SIZE - i,
        {
            let src: usize = start + (CHUNK_SIZE - 1 - i);
            proof {
                let j = start + i;
                let q = start as int / CHUNK_SIZE as int;
                vstd::arithmetic::div_mod::lemma_fundamental_div_mod(start as int, CHUNK_SIZE as int);
                vstd::arithmetic::mul::lemma_mul_is_commutative(q, CHUNK_SIZE as int);
                vstd::arithmetic::div_mod::lemma_fundamental_div_mod_converse(
                    j as int,
                    CHUNK_SIZE as int,
                    start as int / CHUNK_SIZE as int,
                    i as int,
                );
            }
            result[start + i] = bytes[src];
            i = i + 1;
        }
        start = start + CHUNK_SIZE;
        proof {
            let prev = start as int - CHUNK_SIZE as int;
            let q = prev / CHUNK_SIZE as int;
            vstd::arithmetic::div_mod::lemma_fundamental_div_mod(prev, CHUNK_SIZE as int);
            assert(start as int == (q + 1) * CHUNK_SIZE as int + 0) by (nonlinear_arith)
                requires
                    prev == CHUNK_SIZE as int * q + prev % CHUNK_SIZE as int,
                    prev % CHUNK_SIZE as int == 0,
                    start as int == prev + CHUNK_SIZE as int,
            ;
            vstd::arithmetic::div_mod::lemma_fundamental_div_mod_converse(
                start as int,
                CHUNK_SIZE as int,
                q + 1,
                0,
            );
        }
    }
    assert(result@ =~= chunks_reversed(bytes@, CHUNK_SIZE as int));
    result
}

/// Reversing every chunk twice with the same chunk size gives back the
/// original bytes.
pub proof fn lemma_convert_endianness_involutive(b: Seq<u8>, chunk: int)
    requires
        chunk > 0,
        (b.len() as int) % chunk == 0,
    ensures
        chunks_reversed(chunks_reversed(b, chunk), chunk) == b,
{
    let once = chunks_reversed(b, chunk);
    assert forall|i: int| 0 <= i < b.len() implies chunks_reversed(once, chunk)[i] == b[i] by {
        lemma_chunk_mirror_bounds(i, chunk, b.len() as int);
    }
    assert(chunks_reversed(once, chunk) =~= b);
}

} // verus!
