use vstd::prelude::*;

verus! {

/// The even-index subsequence of `s`: the elements at indices 0, 2, 4, ...
/// in their original relative order.
pub open spec fn pares_de(s: Seq<i32>) -> Seq<i32> {
    Seq::new((s.len() + 1) / 2, |i: int| s[2 * i])
}

/// The odd-index subsequence of `s`: the elements at indices 1, 3, 5, ...
/// in their original relative order.
pub open spec fn impares_de(s: Seq<i32>) -> Seq<i32> {
    Seq::new(s.len() / 2, |i: int| s[2 * i + 1])
}

/// Collects the samples at even indices, the "even" half of the
/// decimation-in-time split.
pub fn extraer_pares(numeros: &[i32]) -> (r: Vec<i32>)
    ensures
        r@ == pares_de(numeros@),
{
    let n = numeros.len();
    let cuenta = n - n / 2;
    let mut r: Vec<i32> = Vec::new();
    let mut j: usize = 0;
    while j < cuenta
        invariant
            numeros@.len() <= usize::MAX,
            cuenta == (numeros@.len() + 1) / 2,
            2 * cuenta <= numeros@.len() + 1,
            j <= cuenta,
            r@.len() == j,
            forall|k: int| 0 <= k < j ==> r@[k] == numeros@[2 * k],
        decreases cuenta - j,
    {
        r.push(numeros[2 * j]);
        j = j + 1;
    }
    assert(r@ =~= pares_de(numeros@));
    r
}

/// Collects the samples at odd indices, the "odd" half of the
/// decimation-in-time split.
pub fn extraer_impares(numeros: &[i32]) -> (r: Vec<i32>)
    ensures
        r@ == impares_de(numeros@),
{
    let n = numeros.len();
    let cuenta = n / 2;
    let mut r: Vec<i32> = Vec::new();
    let mut j: usize = 0;
    while j < cuenta
        invariant
            numeros@.len() <= usize::MAX,
            cuenta == numeros@.len() / 2,
            2 * cuenta <= numeros@.len(),
            j <= cuenta,
            r@.len() == j,
            forall|k: int| 0 <= k < j ==> r@[k] == numeros@[2 * k + 1],
        decreases cuenta - j,
    {
        r.push(numeros[2 * j + 1]);
        j = j + 1;
    }
    assert(r@ =~= impares_de(numeros@));
    r
}

/// Law: the even- and odd-index subsequences partition the input. Their
/// lengths add up to the input's length, and every input element appears in
/// exactly one of them, at the position given by halving its index.
pub proof fn lemma_particion_por_paridad(s: Seq<i32>)
    ensures
        pares_de(s).len() + impares_de(s).len() == s.len(),
        forall|i: int|
            0 <= i < s.len() && i % 2 == 0 ==> pares_de(s)[i / 2] == s[i],
        forall|i: int|
            0 <= i < s.len() && i % 2 != 0 ==> impares_de(s)[i / 2] == s[i],
{
}

/// Law: the split is deterministic. Both subsequences are functions of the
/// input sequence alone, so two runs over equal inputs yield equal outputs.
pub proof fn lemma_extraccion_determinista(s1: Seq<i32>, s2: Seq<i32>)
    requires
        s1 == s2,
    ensures
        pares_de(s1) == pares_de(s2),
        impares_de(s1) == impares_de(s2),
{
}

} // verus!
