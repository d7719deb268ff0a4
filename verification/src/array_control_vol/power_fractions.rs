use vstd::prelude::*;
use crate::tuas_lib_error::TuasLibError;
use crate::units::Ratio;

verus! {

/// The shares of the nodes of an array in a power, in millionths: a
/// one-dimensional array of the crate `ndarray`.
#[verifier::external_body]
pub struct PowerFractions {
    array: ndarray::Array1<i64>,
}

/// The shares that an array of power fractions holds, in the order of the
/// nodes.
pub uninterp spec fn power_fraction_values(fractions: PowerFractions) -> Seq<Ratio>;

impl View for PowerFractions {
    type V = Seq<Ratio>;

    open spec fn view(&self) -> Seq<Ratio> {
        power_fraction_values(*self)
    }
}

/// `ndarray::Array1::default` for a number of elements: the array of that
/// many elements, each the default of its type, which for an integer is
/// zero. The function panics where the number of elements overflows
/// `isize`, and the vector that it fills where its bytes do; both are left
/// out.
#[verifier::external_body]
fn array_default(number_of_elements: usize) -> (fractions: PowerFractions)
    requires
        number_of_elements <= isize::MAX / 8,
    ensures
        power_fraction_values(fractions) == Seq::new(number_of_elements as nat, |i: int| 0i64),
{
    PowerFractions { array: ndarray::Array1::default(number_of_elements) }
}

/// `ndarray::ArrayBase::fill`: assigns the given value to every element of
/// the array, which keeps its length.
#[verifier::external_body]
fn array_fill(fractions: &mut PowerFractions, value: Ratio)
    ensures
        power_fraction_values(*final(fractions)) == Seq::new(
            power_fraction_values(*old(fractions)).len(),
            |i: int| value,
        ),
{
    fractions.array.fill(value)
}

/// `ndarray::ArrayBase::to_vec` of a one-dimensional array: a vector with
/// the elements of the array, in their order.
#[verifier::external_body]
fn array_to_vec(fractions: &PowerFractions) -> (elements: Vec<Ratio>)
    ensures
        elements@ == power_fraction_values(*fractions),
{
    fractions.array.to_vec()
}

/// `ndarray::ArrayBase::from_vec`: the one-dimensional array that holds the
/// elements of the vector, in their order. It panics only for elements of
/// size zero, which an integer is not.
#[verifier::external_body]
fn array_from_vec(elements: Vec<Ratio>) -> (fractions: PowerFractions)
    ensures
        power_fraction_values(fractions) == elements@,
{
    PowerFractions { array: ndarray::Array1::from_vec(elements) }
}

/// `number_of_nodes` times the value `value`.
pub open spec fn uniform(number_of_nodes: nat, value: i64) -> Seq<i64> {
    Seq::new(number_of_nodes, |i: int| value)
}

/// `number_of_nodes` times the share `share`, for a number of nodes that
/// the machine can hold in one array: eight bytes each, `isize::MAX` bytes
/// in all.
pub open spec fn uniform_fractions(number_of_nodes: nat, share: Ratio) -> Result<
    Seq<Ratio>,
    TuasLibError,
> {
    if number_of_nodes <= isize::MAX / 8 {
        Ok(uniform(number_of_nodes, share))
    } else {
        Err(TuasLibError::DimensionMismatch)
    }
}

impl PowerFractions {
    /// The same share `share` for each of `number_of_nodes` nodes. Fails
    /// with a dimension mismatch for more nodes than the machine can hold
    /// in one array.
    pub fn uniform(number_of_nodes: usize, share: Ratio) -> (result: Result<
        PowerFractions,
        TuasLibError,
    >)
        ensures
            match result {
                Ok(fractions) => uniform_fractions(number_of_nodes as nat, share) == Ok::<
                    Seq<i64>,
                    TuasLibError,
                >(fractions@),
                Err(e) => uniform_fractions(number_of_nodes as nat, share) == Err::<
                    Seq<i64>,
                    TuasLibError,
                >(e),
            },
    {
        if number_of_nodes > (isize::MAX as usize) / 8 {
            return Err(TuasLibError::DimensionMismatch);
        }
        let mut fractions = array_default(number_of_nodes);
        array_fill(&mut fractions, share);
        Ok(fractions)
    }

    /// The shares `shares`, one for each node.
    pub fn from_vec(shares: Vec<Ratio>) -> (fractions: PowerFractions)
        ensures
            fractions@ == shares@,
    {
        array_from_vec(shares)
    }

    /// The shares as a vector, one for each node.
    pub fn to_vec(&self) -> (shares: Vec<Ratio>)
        ensures
            shares@ == self@,
    {
        array_to_vec(self)
    }
}

} // verus!
