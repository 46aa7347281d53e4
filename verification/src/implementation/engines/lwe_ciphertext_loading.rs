//! Loading LWE ciphertexts out of LWE ciphertext vectors.
use crate::implementation::engines::lwe_ciphertext_vector_inplace_encryption::lemma_whole_ciphertexts;
use crate::implementation::engines::CoreEngine;
use crate::implementation::entities::{LweCiphertext, LweCiphertextVector};
use crate::markers::IntegerPrecision;
use crate::specification::engines::lwe_ciphertext_loading::{
    LweCiphertextLoadingEngine, LweCiphertextLoadingError,
};
use crate::specification::entities::LweCiphertextVectorEntity;
use concrete_commons::parameters::LweCiphertextIndex;
use vstd::prelude::*;

verus! {

/// The ciphertext at position `i` of a vector of whole ciphertexts lies inside the vector: it
/// starts at `i` times the size of a ciphertext and ends one size later.
pub proof fn lemma_ciphertext_in_bounds(length: nat, lwe_size: nat, i: nat)
    requires
        lwe_size > 0,
        length % lwe_size == 0,
        i < length / lwe_size,
    ensures
        i * lwe_size + lwe_size <= length,
{
    lemma_whole_ciphertexts(length, lwe_size);
    let count = length / lwe_size;
    assert((i + 1) * lwe_size <= count * lwe_size) by (nonlinear_arith)
        requires
            i + 1 <= count,
    ;
    assert((i + 1) * lwe_size == i * lwe_size + lwe_size) by (nonlinear_arith);
}

impl<P: IntegerPrecision, B> LweCiphertextLoadingEngine<
    LweCiphertextVector<P>,
    LweCiphertext<P>,
> for CoreEngine<B> {
    open spec fn is_ciphertext_at(
        ciphertext: &LweCiphertext<P>,
        vector: &LweCiphertextVector<P>,
        i: nat,
    ) -> bool {
        &&& i * vector.lwe_len() + vector.lwe_len() <= vector@.len()
        &&& ciphertext@ == vector@.subrange(
            i * vector.lwe_len(),
            i * vector.lwe_len() + vector.lwe_len(),
        )
    }

    fn load_lwe_ciphertext(&mut self, vector: &LweCiphertextVector<P>, i: LweCiphertextIndex) -> (r:
        Result<LweCiphertext<P>, LweCiphertextLoadingError>) {
        if i.0 >= vector.lwe_ciphertext_count().0 {
            return Err(LweCiphertextLoadingError::IndexTooLarge);
        }
        Ok(self.load_lwe_ciphertext_unchecked(vector, i))
    }

    fn load_lwe_ciphertext_unchecked(
        &mut self,
        vector: &LweCiphertextVector<P>,
        i: LweCiphertextIndex,
    ) -> (ciphertext: LweCiphertext<P>) {
        let lwe_size: usize = vector.lwe_size().0;
        let scalars = vector.as_slice();
        proof {
            lemma_ciphertext_in_bounds(vector@.len(), lwe_size as nat, i.0 as nat);
            assert(i.0 * lwe_size <= vector@.len()) by (nonlinear_arith)
                requires
                    i.0 * lwe_size + lwe_size <= vector@.len(),
            ;
        }
        let start: usize = i.0 * lwe_size;
        let mut loaded: Vec<P::Raw> = Vec::new();
        let mut copied: usize = 0;
        while copied < lwe_size
            invariant
                copied <= lwe_size,
                scalars@ == vector@,
                start + lwe_size <= vector@.len(),
                vector@.len() <= usize::MAX,
                loaded@ == vector@.subrange(start as int, start + copied),
            decreases lwe_size - copied,
        {
            loaded.push(scalars[start + copied]);
            copied = copied + 1;
            assert(loaded@ =~= vector@.subrange(start as int, start + copied));
        }
        let ciphertext = LweCiphertext::from_container(loaded);
        ciphertext.unwrap()
    }
}

} // verus!
