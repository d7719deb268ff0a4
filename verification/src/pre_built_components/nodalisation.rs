use vstd::prelude::*;
use crate::array_control_vol::column::{outcome, state_after, sum_of};
use crate::array_control_vol::power_fractions::{uniform, PowerFractions};
use crate::boundary_conditions::BCType;
use crate::fixed_point::quotient;
use crate::heat_transfer_correlations::heat_transfer_interactions::HeatTransferInteractionType;
use crate::pre_built_components::heat_transfer_entities::{
    linked, AxialEnd, EntityModel, HeatTransferEntity,
};
use crate::tuas_lib_error::TuasLibError;
use crate::units::{Ratio, RATIO_ONE};

verus! {

/// The share of node `i` of `number_of_nodes` in a power that is spread
/// evenly, in millionths: a millionth more for the first nodes where the
/// number of nodes does not divide a million, so that the shares sum to
/// one.
pub open spec fn even_share(number_of_nodes: nat, i: int) -> Ratio {
    if number_of_nodes == 0 {
        0
    } else if i < RATIO_ONE as int % number_of_nodes as int {
        (RATIO_ONE as int / number_of_nodes as int + 1) as i64
    } else {
        (RATIO_ONE as int / number_of_nodes as int) as i64
    }
}

/// The even shares of `number_of_nodes` nodes in a power.
pub open spec fn even_shares(number_of_nodes: nat) -> Seq<Ratio> {
    Seq::new(number_of_nodes, |i: int| even_share(number_of_nodes, i))
}

/// The first `k` even shares sum to `k` times the lesser share, and one
/// millionth for each node that has the greater.
pub proof fn lemma_even_shares_prefix(number_of_nodes: nat, k: int)
    requires
        number_of_nodes > 0,
        0 <= k <= number_of_nodes,
    ensures
        sum_of(even_shares(number_of_nodes).take(k)) == k * (RATIO_ONE as int
            / number_of_nodes as int) + (if k < RATIO_ONE as int % number_of_nodes as int {
            k
        } else {
            RATIO_ONE as int % number_of_nodes as int
        }),
    decreases k,
{
    let shares = even_shares(number_of_nodes);
    let q = RATIO_ONE as int / number_of_nodes as int;
    let r = RATIO_ONE as int % number_of_nodes as int;
    vstd::arithmetic::div_mod::lemma_mod_bound(RATIO_ONE as int, number_of_nodes as int);
    if k == 0 {
        assert(shares.take(0).len() == 0);
        assert(sum_of(shares.take(0)) == 0);
        assert(0 * q == 0);
    } else {
        lemma_even_shares_prefix(number_of_nodes, k - 1);
        crate::fixed_point::lemma_quotient_bounds(RATIO_ONE as int, number_of_nodes as int);
        assert(shares.take(k).drop_last() == shares.take(k - 1));
        assert(shares.take(k).last() == shares[k - 1]);
        assert(shares[k - 1] == even_share(number_of_nodes, k - 1));
        assert(k * q == (k - 1) * q + q) by (nonlinear_arith);
    }
}

/// Even shares sum to one exactly.
pub proof fn lemma_even_shares_sum_to_one(number_of_nodes: nat)
    requires
        number_of_nodes > 0,
    ensures
        sum_of(even_shares(number_of_nodes)) == RATIO_ONE,
        even_shares(number_of_nodes).len() == number_of_nodes,
{
    let shares = even_shares(number_of_nodes);
    lemma_even_shares_prefix(number_of_nodes, number_of_nodes as int);
    assert(shares.take(number_of_nodes as int) == shares);
    vstd::arithmetic::div_mod::lemma_fundamental_div_mod(RATIO_ONE as int, number_of_nodes as int);
    vstd::arithmetic::div_mod::lemma_mod_bound(RATIO_ONE as int, number_of_nodes as int);
    assert(number_of_nodes * (RATIO_ONE as int / number_of_nodes as int) == number_of_nodes as int
        * (RATIO_ONE as int / number_of_nodes as int));
}

/// The entity with the boundary through which no heat passes linked to both
/// of its ends, the front first.
pub open spec fn with_adiabatic_ends(entity: EntityModel) -> Result<EntityModel, TuasLibError> {
    match linked(
        entity,
        AxialEnd::Front,
        EntityModel::Boundary(BCType::UserSpecifiedHeatAddition(0)),
        HeatTransferInteractionType::UserSpecifiedHeatAddition,
    ) {
        Ok((front_linked, _)) => match linked(
            front_linked,
            AxialEnd::Back,
            EntityModel::Boundary(BCType::UserSpecifiedHeatAddition(0)),
            HeatTransferInteractionType::UserSpecifiedHeatAddition,
        ) {
            Ok((both_linked, _)) => Ok(both_linked),
            Err(e) => Err(e),
        },
        Err(e) => Err(e),
    }
}

/// The share of one of `number_of_nodes` equal nodes in a quantity of the
/// whole (a length, an area, a conductance), rounded towards minus infinity.
pub open spec fn nodal_share(whole: i64, number_of_nodes: nat) -> Result<i64, TuasLibError> {
    quotient(whole as int, number_of_nodes as int)
}

/// A vector of `number_of_nodes` times the value `value`.
pub fn filled(number_of_nodes: usize, value: i64) -> (vector: Vec<i64>)
    ensures
        vector@ == uniform(number_of_nodes as nat, value),
{
    let mut vector: Vec<i64> = Vec::new();
    let mut i: usize = 0;
    while i < number_of_nodes
        invariant
            i <= number_of_nodes,
            vector@ == uniform(i as nat, value),
        decreases number_of_nodes - i,
    {
        vector.push(value);
        assert(vector@ =~= uniform((i + 1) as nat, value));
        i = i + 1;
    }
    vector
}

/// The even shares of `number_of_nodes` nodes in a power. They sum to one.
/// Where the number of nodes divides a million, one array is filled with
/// the one share of all nodes.
pub fn get_even_shares(number_of_nodes: usize) -> (fractions: PowerFractions)
    ensures
        fractions@ == even_shares(number_of_nodes as nat),
        fractions@.len() == number_of_nodes,
        number_of_nodes > 0 ==> sum_of(fractions@) == RATIO_ONE,
{
    let mut shares: Vec<i64> = Vec::new();
    if number_of_nodes == 0 {
        assert(shares@ =~= even_shares(0));
        return PowerFractions::from_vec(shares);
    }
    proof {
        crate::fixed_point::lemma_quotient_bounds(RATIO_ONE as int, number_of_nodes as int);
        vstd::arithmetic::div_mod::lemma_mod_bound(RATIO_ONE as int, number_of_nodes as int);
    }
    let q_fraction_per_node: i64 = ((RATIO_ONE as i128) / (number_of_nodes as i128)) as i64;
    let left_over: i128 = (RATIO_ONE as i128) % (number_of_nodes as i128);
    if left_over == 0 {
        match PowerFractions::uniform(number_of_nodes, q_fraction_per_node) {
            Ok(fractions) => {
                proof {
                    assert(fractions@ =~= even_shares(number_of_nodes as nat));
                    lemma_even_shares_sum_to_one(number_of_nodes as nat);
                }
                return fractions;
            },
            Err(_) => {},
        }
    }
    let mut i: usize = 0;
    while i < number_of_nodes
        invariant
            i <= number_of_nodes,
            number_of_nodes > 0,
            0 <= q_fraction_per_node <= RATIO_ONE,
            q_fraction_per_node == RATIO_ONE as int / number_of_nodes as int,
            left_over == RATIO_ONE as int % number_of_nodes as int,
            shares@.len() == i,
            forall|k: int|
                0 <= k < i ==> #[trigger] shares@[k] == even_share(number_of_nodes as nat, k),
        decreases number_of_nodes - i,
    {
        if (i as i128) < left_over {
            shares.push(q_fraction_per_node + 1);
        } else {
            shares.push(q_fraction_per_node);
        }
        i = i + 1;
    }
    assert(shares@ =~= even_shares(number_of_nodes as nat));
    proof {
        lemma_even_shares_sum_to_one(number_of_nodes as nat);
    }
    PowerFractions::from_vec(shares)
}

/// The share of one of `number_of_nodes` equal nodes in a quantity of the
/// whole.
pub fn try_get_nodal_share(whole: i64, number_of_nodes: usize) -> (result: Result<i64, TuasLibError>)
    ensures
        result == nodal_share(whole, number_of_nodes as nat),
{
    if number_of_nodes == 0 {
        return Err(TuasLibError::ValueNotRepresentable);
    }
    proof {
        crate::fixed_point::lemma_quotient_bounds(whole as int, number_of_nodes as int);
    }
    match (whole as i128).checked_div_euclid(number_of_nodes as i128) {
        Some(q) => Ok(q as i64),
        None => Err(TuasLibError::ValueNotRepresentable),
    }
}

/// Links the boundary through which no heat passes to both ends of `entity`.
/// A failure changes nothing.
pub fn link_adiabatic_ends(entity: &mut HeatTransferEntity) -> (result: Result<(), TuasLibError>)
    ensures
        result == outcome(with_adiabatic_ends(old(entity)@)),
        final(entity)@ == state_after(with_adiabatic_ends(old(entity)@), old(entity)@),
{
    let mut zero_power_bc = HeatTransferEntity::BoundaryConditions(
        BCType::UserSpecifiedHeatAddition(0),
    );
    let interaction = HeatTransferInteractionType::UserSpecifiedHeatAddition;
    if entity.column().is_none() {
        return Err(TuasLibError::TypeConversionError);
    }
    match entity.link_to_front(&mut zero_power_bc, interaction) {
        Ok(()) => {},
        Err(e) => {
            return Err(e);
        },
    }
    entity.link_to_back(&mut zero_power_bc, interaction)
}

} // verus!
