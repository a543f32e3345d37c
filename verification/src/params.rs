use vstd::prelude::*;

verus! {

/// `n` is a power of two (1, 2, 4, ...).
pub open spec fn is_pow2(n: nat) -> bool
    decreases n,
{
    if n == 1 {
        true
    } else if n == 0 || n % 2 == 1 {
        false
    } else {
        is_pow2(n / 2)
    }
}

/// The FPTX batch size must be a power of two.
#[derive(Debug, Clone, Copy, PartialEq, Eq, Structural)]
pub struct BatchSizeNotPowerOfTwo;

impl BatchSizeNotPowerOfTwo {
    /// The text of the error.
    pub fn message(&self) -> (s: &'static str)
        ensures
            s@ == "FPTX batch size must be a power of two"@,
    {
        "FPTX batch size must be a power of two"
    }
}

/// Parameters of the FPTX (batch threshold encryption) part of the setup.
#[derive(Debug, Clone, Copy, PartialEq, Eq, Structural)]
pub struct FPTXParams {
    pub batch_size: usize,
    pub num_rounds: usize,
}

impl FPTXParams {
    /// Accepts a batch size that is a power of two; any other batch size, zero
    /// included, is refused.
    pub fn new(batch_size: usize, num_rounds: usize) -> (res: Result<Self, BatchSizeNotPowerOfTwo>)
        ensures
            res is Ok <==> is_pow2(batch_size as nat),
            res matches Ok(p) ==> p.batch_size == batch_size && p.num_rounds == num_rounds,
    {
        if batch_size == 0 {
            return Err(BatchSizeNotPowerOfTwo);
        }
        let mut i = batch_size;
        while i > 1
            invariant
                is_pow2(batch_size as nat) <==> is_pow2(i as nat),
                i > 0,
            decreases i,
        {
            if i % 2 != 0 {
                return Err(BatchSizeNotPowerOfTwo);
            }
            i = i / 2;
        }
        Ok(FPTXParams { batch_size, num_rounds })
    }
}

/// Parameters of a powers-of-tau contribution: powers 0 to `max_power`.
#[derive(Debug, Clone, Copy, PartialEq, Eq, Structural)]
pub struct PowersOfTauParams {
    pub max_power: usize,
}

impl PowersOfTauParams {
    pub fn new(max_power: usize) -> (p: Self)
        ensures
            p.max_power == max_power,
    {
        PowersOfTauParams { max_power }
    }
}

/// The hiding KZG setup has the same parameters as powers of tau.
pub type HidingKZGParams = PowersOfTauParams;

/// The smallest power of two that is at least `x` (1 for 0).
pub open spec fn is_next_pow2(x: nat, p: nat) -> bool {
    &&& is_pow2(p)
    &&& p >= x
    &&& (p == 1 || p / 2 < x)
}

proof fn lemma_pow2_double(p: nat)
    requires
        is_pow2(p),
    ensures
        is_pow2(2 * p),
        (2 * p) / 2 == p,
{
    assert((2 * p) % 2 == 0 && (2 * p) / 2 == p) by (nonlinear_arith);
}

/// The next power of two of `x` (as `usize::next_power_of_two`).
pub fn next_power_of_two(x: usize) -> (p: usize)
    requires
        x <= usize::MAX / 2 + 1,
    ensures
        is_next_pow2(x as nat, p as nat),
{
    let mut p: usize = 1;
    while p < x
        invariant
            is_pow2(p as nat),
            x <= usize::MAX / 2 + 1,
            p == 1 || p / 2 < x,
            p >= 1,
        decreases usize::MAX - p,
    {
        proof {
            lemma_pow2_double(p as nat);
        }
        p = p * 2;
    }
    p
}

/// Parameters of the whole ceremony: the FPTX part and the hiding KZG part for
/// the DKG's chunked ElGamal.
#[derive(Debug, Clone, Copy, PartialEq, Eq, Structural)]
pub struct AptosParams {
    pub fptx: FPTXParams,
    pub hiding_kzg: HidingKZGParams,
}

impl AptosParams {
    /// The hiding KZG setup must commit to `max_total_share_weight * num_chunks`
    /// chunks plus one, rounded up to a power of two, minus one: that many powers.
    /// `num_chunks` is the DKG's number of chunks per scalar. The batch size must
    /// be a power of two.
    pub fn new(batch_size: usize, num_rounds: usize, max_total_share_weight: usize, num_chunks: usize)
        -> (r: Result<Self, BatchSizeNotPowerOfTwo>)
        requires
            max_total_share_weight * num_chunks <= usize::MAX / 2,
        ensures
            r is Ok <==> is_pow2(batch_size as nat),
            r matches Ok(p) ==> p.fptx.batch_size == batch_size && p.fptx.num_rounds == num_rounds
                && is_next_pow2((max_total_share_weight * num_chunks + 1) as nat, (p.hiding_kzg.max_power + 1) as nat),
    {
        let padded = next_power_of_two(max_total_share_weight * num_chunks + 1);
        let max_num_chunks_padded = padded - 1;
        let fptx = FPTXParams::new(batch_size, num_rounds)?;
        Ok(AptosParams { fptx, hiding_kzg: PowersOfTauParams::new(max_num_chunks_padded) })
    }
}

} // verus!
