//! The face-embedding value type and its comparison operations.

use vstd::prelude::*;

verus! {

use vstd::std_specs::cmp::PartialEqSpec;

/// Number of components in a face encoding.
pub const ENCODING_LENGTH: usize = 128;

/// An embedding of one face: an immutable sequence of exactly
/// [`ENCODING_LENGTH`] components.
///
/// Each component is the 64-bit pattern of the IEEE-754 double produced by
/// the embedding model for that position, so the type itself stays free of
/// floating-point arithmetic. Two encodings are equal exactly when every
/// pair of corresponding components is equal as IEEE-754 doubles — exact
/// equality, under which a NaN component makes the comparison false and
/// the two zero patterns compare equal (see [`double_eq`]). Callers
/// wanting "same person" semantics should instead compare the euclidean
/// distance of the numeric components against a threshold of their
/// choosing.
#[derive(Clone, Debug)]
pub struct FaceEncoding {
    elements: [u64; ENCODING_LENGTH],
}

impl View for FaceEncoding {
    type V = Seq<u64>;

    closed spec fn view(&self) -> Seq<u64> {
        self.elements@
    }
}

impl FaceEncoding {
    /// Every encoding holds exactly [`ENCODING_LENGTH`] components.
    pub proof fn lemma_length(&self)
        ensures
            self@.len() == ENCODING_LENGTH,
    {
    }

    /// Create a new encoding from its [`ENCODING_LENGTH`] components.
    pub fn new(elements: &[u64; ENCODING_LENGTH]) -> (result: Self)
        ensures
            result@ == elements@,
    {
        FaceEncoding { elements: *elements }
    }

    /// Create a new encoding with every component set to the same value.
    ///
    /// Mostly used for testing purposes.
    pub fn new_from_scalar(scalar: u64) -> (result: Self)
        ensures
            result@.len() == ENCODING_LENGTH,
            forall|i: int| 0 <= i < ENCODING_LENGTH ==> result@[i] == scalar,
    {
        FaceEncoding { elements: [scalar; ENCODING_LENGTH] }
    }

    /// Create a new encoding from a variable-length list of components,
    /// rejecting any list that does not hold exactly [`ENCODING_LENGTH`]
    /// of them.
    pub fn from_vec(elements: &Vec<u64>) -> (result: Result<Self, EncodingError>)
        ensures
            elements@.len() == ENCODING_LENGTH ==> (result matches Ok(enc) && enc@
                == elements@),
            elements@.len() != ENCODING_LENGTH ==> result == Err::<Self, EncodingError>(
                EncodingError::InvalidDimension,
            ),
    {
        if elements.len() != ENCODING_LENGTH {
            return Err(EncodingError::InvalidDimension);
        }
        let mut copied: [u64; ENCODING_LENGTH] = [0u64; ENCODING_LENGTH];
        let mut i: usize = 0;
        while i < ENCODING_LENGTH
            invariant
                i <= ENCODING_LENGTH,
                elements@.len() == ENCODING_LENGTH,
                forall|j: int| 0 <= j < i ==> copied@[j] == elements@[j],
            decreases ENCODING_LENGTH - i,
        {
            copied[i] = elements[i];
            i = i + 1;
        }
        proof {
            assert(copied@ =~= elements@);
        }
        Ok(FaceEncoding { elements: copied })
    }

    /// Read back all components, in order.
    pub fn to_elements(&self) -> (result: [u64; ENCODING_LENGTH])
        ensures
            result@ == self@,
    {
        self.elements
    }

    /// The component at `index`.
    pub fn get(&self, index: usize) -> (result: u64)
        requires
            index < ENCODING_LENGTH,
        ensures
            result == self@[index as int],
    {
        self.elements[index]
    }

    /// The number of components, always [`ENCODING_LENGTH`].
    pub fn len(&self) -> (result: usize)
        ensures
            result == self@.len(),
            result == ENCODING_LENGTH,
    {
        ENCODING_LENGTH
    }
}

/// Whether `bits` is the pattern of an IEEE-754 double NaN: all exponent
/// bits set and a nonzero fraction.
pub open spec fn double_is_nan(bits: u64) -> bool {
    bits & 0x7FF0_0000_0000_0000 == 0x7FF0_0000_0000_0000 && bits & 0x000F_FFFF_FFFF_FFFF != 0
}

/// Whether `bits` is one of the two IEEE-754 double zero patterns
/// (positive or negative zero).
pub open spec fn double_is_zero(bits: u64) -> bool {
    bits & 0x7FFF_FFFF_FFFF_FFFF == 0
}

/// Exact IEEE-754 equality of two double bit patterns: false whenever
/// either is a NaN pattern; otherwise true exactly when the patterns are
/// identical or both are zeros (positive and negative zero compare equal).
pub open spec fn double_eq(a: u64, b: u64) -> bool {
    &&& !double_is_nan(a)
    &&& !double_is_nan(b)
    &&& (a == b || (double_is_zero(a) && double_is_zero(b)))
}

/// Runtime check of [`double_eq`].
fn double_eq_exec(a: u64, b: u64) -> (result: bool)
    ensures
        result == double_eq(a, b),
{
    let a_nan = (a & 0x7FF0_0000_0000_0000) == 0x7FF0_0000_0000_0000 && (a
        & 0x000F_FFFF_FFFF_FFFF) != 0;
    let b_nan = (b & 0x7FF0_0000_0000_0000) == 0x7FF0_0000_0000_0000 && (b
        & 0x000F_FFFF_FFFF_FFFF) != 0;
    if a_nan || b_nan {
        false
    } else {
        a == b || ((a & 0x7FFF_FFFF_FFFF_FFFF) == 0 && (b & 0x7FFF_FFFF_FFFF_FFFF) == 0)
    }
}

impl PartialEq for FaceEncoding {
    fn eq(&self, other: &Self) -> (result: bool) {
        let mut i: usize = 0;
        while i < ENCODING_LENGTH
            invariant
                i <= ENCODING_LENGTH,
                forall|j: int| 0 <= j < i ==> double_eq(self@[j], other@[j]),
            decreases ENCODING_LENGTH - i,
        {
            if !double_eq_exec(self.elements[i], other.elements[i]) {
                proof {
                    assert(!double_eq(self@[i as int], other@[i as int]));
                }
                return false;
            }
            i = i + 1;
        }
        true
    }
}

impl vstd::std_specs::cmp::PartialEqSpecImpl for FaceEncoding {
    open spec fn obeys_eq_spec() -> bool {
        true
    }

    open spec fn eq_spec(&self, other: &Self) -> bool {
        forall|i: int| 0 <= i < ENCODING_LENGTH ==> double_eq(self@[i], other@[i])
    }
}

/// Every encoding none of whose components is a NaN pattern compares
/// equal to itself. (An encoding holding a NaN does not: IEEE-754
/// equality is not reflexive on NaN, so the type has `PartialEq` only.)
pub proof fn lemma_eq_reflexive(a: &FaceEncoding)
    requires
        forall|i: int| 0 <= i < ENCODING_LENGTH ==> !double_is_nan(a@[i]),
    ensures
        a.eq_spec(a),
{
}

/// Two encodings whose components at some position are unequal as
/// IEEE-754 doubles are not equal.
pub proof fn lemma_differing_component_not_equal(a: &FaceEncoding, b: &FaceEncoding, i: int)
    requires
        0 <= i < ENCODING_LENGTH,
        !double_eq(a@[i], b@[i]),
    ensures
        !a.eq_spec(b),
{
}

/// Reading the components back out of an encoding built from a list of
/// components yields that same list, element for element, in the same
/// order.
pub proof fn lemma_round_trip(
    elements: [u64; ENCODING_LENGTH],
    encoding: FaceEncoding,
    readback: [u64; ENCODING_LENGTH],
)
    requires
        encoding@ == elements@,
        readback@ == encoding@,
    ensures
        forall|i: int| 0 <= i < ENCODING_LENGTH ==> readback@[i] == elements@[i],
{
}

/// Error raised when an encoding is built from ill-shaped input.
#[derive(Clone, PartialEq, Eq, Debug)]
pub enum EncodingError {
    /// The input did not hold exactly [`ENCODING_LENGTH`] components.
    InvalidDimension,
    /// The external detection or embedding model failed; carries the
    /// model's diagnostic message, which is not interpreted here.
    ExternalModelError(String),
}

} // verus!
