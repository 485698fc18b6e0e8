use vstd::prelude::*;

verus! {

/// Whether `n` is a power of two: one, or an even number whose half is
/// again a power of two. Zero and negative numbers are not powers of two.
pub open spec fn es_potencia_de_dos(n: int) -> bool
    decreases n,
{
    if n <= 0 {
        false
    } else if n == 1 {
        true
    } else {
        n % 2 == 0 && es_potencia_de_dos(n / 2)
    }
}

/// Failure of the transform's input validation: the sample sequence is
/// empty or its length is not a power of two, so the even/odd recursion
/// would not bottom out cleanly at length one.
#[derive(Clone, Copy, Debug, PartialEq, Eq, Structural)]
pub enum FftError {
    InvalidLength,
}

/// Accepts exactly the sequence lengths on which the radix-2 recursion is
/// defined: the powers of two. Every other length, zero included, is
/// rejected with `InvalidLength` before any work is done on the samples.
pub fn validar_longitud(n: usize) -> (r: Result<(), FftError>)
    ensures
        r is Ok <==> es_potencia_de_dos(n as int),
        r is Err ==> r == Err::<(), FftError>(FftError::InvalidLength),
{
    if n == 0 {
        return Err(FftError::InvalidLength);
    }
    let mut m: usize = n;
    while m % 2 == 0
        invariant
            1 <= m <= n,
            es_potencia_de_dos(n as int) <==> es_potencia_de_dos(m as int),
        decreases m,
    {
        m = m / 2;
    }
    if m == 1 {
        Ok(())
    } else {
        Err(FftError::InvalidLength)
    }
}

} // verus!
