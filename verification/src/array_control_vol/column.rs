use vstd::prelude::*;
use crate::boussinesq_thermophysical_properties::material::{Material, MaterialModel};
use crate::boussinesq_thermophysical_properties::property_curve::{copy_of, KNOT_LIMIT};
use crate::fixed_point::{fits_i128, mul_mul_div, quotient, sum_of_three, truncated};
use crate::tuas_lib_error::TuasLibError;
use crate::units::{
    Area, Energy, HeatRate, Length, Mass, MassRate, Power, Pressure, Ratio, ThermalConductance,
    ThermodynamicTemperature, Time, RATIO_ONE,
};

verus! {

/// What a chain of control volumes is to this library.
///
/// The nodes are numbered from the back (node 0) to the front (the last node);
/// a positive mass flow runs from the back to the front. All nodes have the
/// same mass and are of the same material.
///
/// Each node holds its enthalpy, from which its temperature follows, and the
/// heat rate that the lateral links of the current step have registered. The
/// two ends of the chain hold the heat rate of their axial link. Links hold for
/// one step: advancing the chain consumes them.
pub struct ColumnModel {
    pub material: MaterialModel,
    pub pressure: Pressure,
    pub node_mass: Mass,
    /// The mass flow through the chain, from the back to the front.
    pub mass_flowrate: MassRate,
    /// The conductance between the centres of two neighbouring nodes.
    pub axial_conductance: ThermalConductance,
    /// The enthalpy of each node above the material's reference state.
    pub enthalpy: Seq<Energy>,
    /// The temperature of each node.
    pub temperature: Seq<ThermodynamicTemperature>,
    /// The heat rate into each node from its lateral links.
    pub lateral_heat_rate: Seq<HeatRate>,
    /// The heat rate into the last node from the axial link at the front.
    pub front_heat_rate: HeatRate,
    /// The heat rate into node 0 from the axial link at the back.
    pub back_heat_rate: HeatRate,
}

/// A density in gram per cubic metre times a volume in cubic micrometre is
/// this many times a mass in microgram.
pub const CUBIC_MICROMETRE_GRAMS_PER_MICROGRAM: i64 = 1_000_000_000_000;

/// The sum of the elements of `s`.
pub open spec fn sum_of(s: Seq<i64>) -> int
    decreases s.len(),
{
    if s.len() == 0 {
        0
    } else {
        sum_of(s.drop_last()) + s.last()
    }
}

/// The sum of `n` elements lies between `n` times the least and `n` times the
/// greatest value of the type.
pub proof fn lemma_sum_bounds(s: Seq<i64>)
    ensures
        s.len() * i64::MIN <= sum_of(s) <= s.len() * i64::MAX,
    decreases s.len(),
{
    if s.len() > 0 {
        lemma_sum_bounds(s.drop_last());
        assert((s.len() - 1) * i64::MIN + i64::MIN == s.len() * i64::MIN) by (nonlinear_arith);
        assert((s.len() - 1) * i64::MAX + i64::MAX == s.len() * i64::MAX) by (nonlinear_arith);
    }
}

/// `n` millionths, rounded towards zero: the millionths of the opposite
/// number are the opposite.
pub open spec fn millionths(n: int) -> int {
    truncated(n, RATIO_ONE as int)
}

/// The part of the power `total_power` that the first `k` of the shares
/// `fractions`, in millionths, take together, rounded towards zero.
pub open spec fn cumulative_power(total_power: Power, fractions: Seq<Ratio>, k: int) -> int {
    millionths(total_power * sum_of(fractions.take(k)))
}

/// The part of the power `total_power` that share `i` of `fractions` takes:
/// what the first `i + 1` shares take together less what the first `i`
/// take.
pub open spec fn power_share(total_power: Power, fractions: Seq<Ratio>, i: int) -> int {
    cumulative_power(total_power, fractions, i + 1) - cumulative_power(total_power, fractions, i)
}

/// The millionths of a number of 128 bits are less than 2 to the 126 in
/// size.
pub proof fn lemma_millionth_bounds(n: int)
    requires
        fits_i128(n),
    ensures
        -0x2000_0000_0000_0000_0000_0000_0000_0000 <= millionths(n)
            <= 0x2000_0000_0000_0000_0000_0000_0000_0000,
{
    let d = RATIO_ONE as int;
    let m = if n >= 0 {
        n
    } else {
        -n
    };
    let q = m / d;
    let r = m % d;
    assert(m == d * q + r && 0 <= r < d) by {
        vstd::arithmetic::div_mod::lemma_fundamental_div_mod(m, d);
        vstd::arithmetic::div_mod::lemma_mod_bound(m, d);
    }
    assert(0 <= q <= 0x2000_0000_0000_0000_0000_0000_0000_0000) by (nonlinear_arith)
        requires
            m == d * q + r,
            0 <= r < d,
            d == 1_000_000,
            0 <= m <= 0x8000_0000_0000_0000_0000_0000_0000_0000,
    ;
}

/// Each temperature is the one at which the material has the specific
/// enthalpy of the node.
pub open spec fn temperatures_follow(
    material: MaterialModel,
    node_mass: Mass,
    enthalpy: Seq<Energy>,
    temperature: Seq<ThermodynamicTemperature>,
) -> bool {
    forall|i: int|
        0 <= i < enthalpy.len() ==> material.temperature_at(
            #[trigger] enthalpy[i] as int / node_mass as int,
        ) == Ok::<i64, TuasLibError>(temperature[i])
}

impl ColumnModel {
    pub open spec fn len(self) -> int {
        self.enthalpy.len() as int
    }

    /// The enthalpy of node `i` per unit of mass.
    pub open spec fn specific_enthalpy(self, i: int) -> int {
        self.enthalpy[i] as int / self.node_mass as int
    }

    /// The temperature of every node is the one at which the material has the
    /// node's specific enthalpy.
    pub open spec fn wf(self) -> bool {
        &&& self.material.wf()
        &&& self.node_mass > 0
        &&& self.len() >= 1
        &&& self.temperature.len() == self.len()
        &&& self.lateral_heat_rate.len() == self.len()
        &&& temperatures_follow(self.material, self.node_mass, self.enthalpy, self.temperature)
    }

    /// The temperature at the back end.
    pub open spec fn back_temperature(self) -> ThermodynamicTemperature {
        self.temperature[0]
    }

    /// The temperature at the front end.
    pub open spec fn front_temperature(self) -> ThermodynamicTemperature {
        self.temperature[self.len() - 1]
    }

    /// The heat rate that crosses the face between node `i` and node `i + 1`,
    /// counted from `i` to `i + 1`. The flow carries the specific enthalpy of
    /// the node it comes from; conduction follows the temperature difference.
    pub open spec fn face_heat_rate(self, i: int) -> int {
        let upstream = if self.mass_flowrate >= 0 {
            i
        } else {
            i + 1
        };
        self.mass_flowrate * self.specific_enthalpy(upstream) + self.axial_conductance * (
        self.temperature[i] - self.temperature[i + 1])
    }

    /// The heat rate into node `i` through its back face.
    pub open spec fn heat_rate_from_back(self, i: int) -> int {
        if i == 0 {
            self.back_heat_rate as int
        } else {
            self.face_heat_rate(i - 1)
        }
    }

    /// The heat rate into node `i` through its front face.
    pub open spec fn heat_rate_from_front(self, i: int) -> int {
        if i == self.len() - 1 {
            self.front_heat_rate as int
        } else {
            -self.face_heat_rate(i)
        }
    }

    /// The sum of all heat rates into node `i`.
    pub open spec fn net_heat_rate(self, i: int) -> int {
        self.lateral_heat_rate[i] + self.heat_rate_from_back(i) + self.heat_rate_from_front(i)
    }

    /// Whether no link is registered.
    pub open spec fn unlinked(self) -> bool {
        &&& self.front_heat_rate == 0
        &&& self.back_heat_rate == 0
        &&& forall|i: int| 0 <= i < self.len() ==> #[trigger] self.lateral_heat_rate[i] == 0
    }

    /// A chain of `number_of_nodes` nodes of mass `node_mass` each, all at
    /// `initial_temperature` and with the enthalpy that the material has
    /// there, at rest and with no link registered.
    pub open spec fn initial(
        material: MaterialModel,
        pressure: Pressure,
        node_mass: Mass,
        number_of_nodes: nat,
        initial_temperature: ThermodynamicTemperature,
    ) -> Result<ColumnModel, TuasLibError> {
        if number_of_nodes == 0 {
            Err(TuasLibError::DimensionMismatch)
        } else if node_mass <= 0 {
            Err(TuasLibError::ValueNotRepresentable)
        } else {
            match material.specific_enthalpy_at(initial_temperature as int) {
                Ok(specific_enthalpy) => Ok(
                    ColumnModel {
                        material,
                        pressure,
                        node_mass,
                        mass_flowrate: 0,
                        axial_conductance: 0,
                        enthalpy: Seq::new(
                            number_of_nodes,
                            |i: int| (specific_enthalpy * node_mass) as i128,
                        ),
                        temperature: Seq::new(number_of_nodes, |i: int| initial_temperature),
                        lateral_heat_rate: Seq::new(number_of_nodes, |i: int| 0i128),
                        front_heat_rate: 0,
                        back_heat_rate: 0,
                    },
                ),
                Err(e) => Err(e),
            }
        }
    }

    /// A chain of `number_of_nodes` equal nodes that fills a prism of the
    /// given cross section and length with the material at
    /// `initial_temperature`. The mass of the prism is its volume times the
    /// density of the material at `initial_temperature`; each node has the
    /// mass of the prism over the number of nodes, rounded towards zero.
    pub open spec fn initial_prism(
        material: MaterialModel,
        pressure: Pressure,
        cross_sectional_area: Area,
        length: Length,
        number_of_nodes: nat,
        initial_temperature: ThermodynamicTemperature,
    ) -> Result<ColumnModel, TuasLibError> {
        if number_of_nodes == 0 {
            Err(TuasLibError::DimensionMismatch)
        } else {
            match material.density_at(initial_temperature as int) {
                Ok(density) => match quotient(
                    density * cross_sectional_area * length,
                    CUBIC_MICROMETRE_GRAMS_PER_MICROGRAM as int,
                ) {
                    Ok(mass) => ColumnModel::initial(
                        material,
                        pressure,
                        if mass >= 0 {
                            (mass as int / number_of_nodes as int) as i64
                        } else {
                            0i64
                        },
                        number_of_nodes,
                        initial_temperature,
                    ),
                    Err(e) => Err(e),
                },
                Err(e) => Err(e),
            }
        }
    }

    /// The chain after a lateral link of conductance `conductance` from each
    /// node `i` to the temperature `temperatures[i]`: node `i` gains the heat
    /// rate `conductance * (temperatures[i] - temperature of node i)`.
    pub open spec fn with_lateral_temperatures(
        self,
        conductance: ThermalConductance,
        temperatures: Seq<ThermodynamicTemperature>,
    ) -> Result<ColumnModel, TuasLibError> {
        if temperatures.len() != self.len() {
            Err(TuasLibError::DimensionMismatch)
        } else if exists|i: int|
            0 <= i < self.len() && !fits_i128(
                #[trigger] self.lateral_heat_rate[i] + conductance * (temperatures[i]
                    - self.temperature[i]),
            ) {
            Err(TuasLibError::ValueNotRepresentable)
        } else {
            Ok(
                ColumnModel {
                    lateral_heat_rate: Seq::new(
                        self.len() as nat,
                        |i: int|
                            (self.lateral_heat_rate[i] + conductance * (temperatures[i]
                                - self.temperature[i])) as i128,
                    ),
                    ..self
                },
            )
        }
    }

    /// Whether the share of node `i` in the power `total_power` can be
    /// computed and registered within 128 bits.
    pub open spec fn power_share_fits(
        self,
        total_power: Power,
        fractions: Seq<Ratio>,
        i: int,
    ) -> bool {
        &&& fits_i128(total_power * sum_of(fractions.take(i + 1)))
        &&& fits_i128(self.lateral_heat_rate[i] + power_share(total_power, fractions, i))
    }

    /// The chain after a lateral link that spreads the power `total_power`
    /// over the nodes in the shares `fractions`, in millionths. The shares
    /// sum to one, give or take one millionth per node. Node `i` gains
    /// `power_share(total_power, fractions, i)`: the rounding of one node is
    /// made up at the next, so that shares that sum to one hand out the
    /// whole power.
    pub open spec fn with_lateral_power(self, total_power: Power, fractions: Seq<Ratio>) -> Result<
        ColumnModel,
        TuasLibError,
    > {
        if fractions.len() != self.len() {
            Err(TuasLibError::DimensionMismatch)
        } else if !(RATIO_ONE - self.len() <= sum_of(fractions) <= RATIO_ONE + self.len()) {
            Err(TuasLibError::DimensionMismatch)
        } else if exists|i: int|
            0 <= i < self.len() && !#[trigger] self.power_share_fits(total_power, fractions, i) {
            Err(TuasLibError::ValueNotRepresentable)
        } else {
            Ok(
                ColumnModel {
                    lateral_heat_rate: Seq::new(
                        self.len() as nat,
                        |i: int|
                            (self.lateral_heat_rate[i] + power_share(total_power, fractions, i)) as i128,
                    ),
                    ..self
                },
            )
        }
    }

    /// The mean of the node temperatures, rounded towards minus infinity.
    pub open spec fn bulk_temperature(self) -> int {
        sum_of(self.temperature) / self.len()
    }

    /// The enthalpy of node `i` after a step of `timestep`.
    pub open spec fn enthalpy_after(self, i: int, timestep: Time) -> int {
        self.enthalpy[i] + timestep * self.net_heat_rate(i)
    }

    /// The temperature of node `i` after a step of `timestep`: a range error
    /// where the material is not defined at the node's new specific enthalpy.
    pub open spec fn temperature_after(self, i: int, timestep: Time) -> Result<
        ThermodynamicTemperature,
        TuasLibError,
    > {
        self.material.temperature_at(self.enthalpy_after(i, timestep) / self.node_mass as int)
    }

    /// The chain after a step of `timestep`: explicit Euler on the enthalpy of
    /// each node, the temperatures derived anew, the links consumed.
    ///
    /// A node holds the enthalpy of its whole mass, which the step changes by
    /// `timestep` times the sum of the heat rates into the node. Per unit of
    /// mass that is `h' = h + timestep / mass * (sum of the heat rates)`.
    pub open spec fn advanced(self, timestep: Time) -> Result<ColumnModel, TuasLibError> {
        if forall|i: int| 0 <= i < self.len() ==> #[trigger] self.temperature_after(i, timestep) is Ok {
            Ok(
                ColumnModel {
                    enthalpy: Seq::new(
                        self.len() as nat,
                        |i: int| self.enthalpy_after(i, timestep) as i128,
                    ),
                    temperature: Seq::new(
                        self.len() as nat,
                        |i: int| self.temperature_after(i, timestep)->Ok_0,
                    ),
                    lateral_heat_rate: Seq::new(self.len() as nat, |i: int| 0i128),
                    front_heat_rate: 0,
                    back_heat_rate: 0,
                    ..self
                },
            )
        } else {
            Err(TuasLibError::ThermophysicalPropertyTemperatureRangeError)
        }
    }

    /// A chain can be made of any positive number of nodes of positive mass
    /// at any temperature at which the material is defined, and every node
    /// of it is at that temperature.
    pub proof fn lemma_initial_succeeds(
        material: MaterialModel,
        pressure: Pressure,
        node_mass: Mass,
        number_of_nodes: nat,
        initial_temperature: ThermodynamicTemperature,
    )
        requires
            material.wf(),
            number_of_nodes > 0,
            node_mass > 0,
            material.in_domain(initial_temperature as int),
        ensures
            ColumnModel::initial(
                material,
                pressure,
                node_mass,
                number_of_nodes,
                initial_temperature,
            ) matches Ok(column) && column.wf() && column.len() == number_of_nodes
                && column.unlinked() && column.temperature == Seq::new(
                number_of_nodes,
                |i: int| initial_temperature,
            ),
    {
        let enthalpy = material.specific_enthalpy;
        material.lemma_temperature_of_enthalpy(initial_temperature as int);
        enthalpy.lemma_value_within_limit(initial_temperature as int);
        let h = enthalpy.value_at(initial_temperature as int);
        let column = ColumnModel::initial(
            material,
            pressure,
            node_mass,
            number_of_nodes,
            initial_temperature,
        )->Ok_0;
        assert(i128::MIN <= h * node_mass <= i128::MAX) by (nonlinear_arith)
            requires
                -KNOT_LIMIT <= h <= KNOT_LIMIT,
                0 < node_mass <= i64::MAX,
        ;
        assert((h * node_mass) / (node_mass as int) == h) by (nonlinear_arith)
            requires
                node_mass > 0,
        ;
        assert forall|k: int| 0 <= k < column.enthalpy.len() implies material.temperature_at(
            #[trigger] column.enthalpy[k] as int / node_mass as int,
        ) == Ok::<i64, TuasLibError>(column.temperature[k]) by {
            assert(column.enthalpy[k] == h * node_mass);
        }
    }

    /// Whether the chain is fresh: `number_of_nodes` nodes, all at
    /// `temperature`, at rest and with no link registered.
    pub open spec fn fresh(self, number_of_nodes: nat, temperature: ThermodynamicTemperature) -> bool {
        &&& self.wf()
        &&& self.len() == number_of_nodes
        &&& self.temperature == Seq::new(number_of_nodes, |i: int| temperature)
        &&& self.unlinked()
        &&& self.mass_flowrate == 0
    }

    /// A chain that fills a prism, where it can be made, is fresh: all of
    /// its nodes are at the initial temperature.
    pub proof fn lemma_initial_prism_is_fresh(
        material: MaterialModel,
        pressure: Pressure,
        cross_sectional_area: Area,
        length: Length,
        number_of_nodes: nat,
        initial_temperature: ThermodynamicTemperature,
    )
        requires
            material.wf(),
            ColumnModel::initial_prism(
                material,
                pressure,
                cross_sectional_area,
                length,
                number_of_nodes,
                initial_temperature,
            ) is Ok,
        ensures
            ColumnModel::initial_prism(
                material,
                pressure,
                cross_sectional_area,
                length,
                number_of_nodes,
                initial_temperature,
            )->Ok_0.fresh(number_of_nodes, initial_temperature),
    {
        let density = material.density_at(initial_temperature as int)->Ok_0;
        let mass = quotient(
            density * cross_sectional_area * length,
            CUBIC_MICROMETRE_GRAMS_PER_MICROGRAM as int,
        )->Ok_0;
        let node_mass = if mass >= 0 {
            (mass as int / number_of_nodes as int) as i64
        } else {
            0i64
        };
        ColumnModel::lemma_initial_succeeds(
            material,
            pressure,
            node_mass,
            number_of_nodes,
            initial_temperature,
        );
    }

    /// The heat rate across a face is less than 2 to the 127 in size.
    pub proof fn lemma_face_heat_rate_bounds(self, i: int)
        requires
            self.wf(),
            0 <= i < self.len() - 1,
        ensures
            -0x7000_0000_0000_0000_0000_0000_0000_0000 <= self.face_heat_rate(i)
                <= 0x7000_0000_0000_0000_0000_0000_0000_0000,
    {
        self.lemma_enthalpy_bounds(i);
        self.lemma_enthalpy_bounds(i + 1);
        let upstream = if self.mass_flowrate >= 0 {
            i
        } else {
            i + 1
        };
        let h = self.specific_enthalpy(upstream);
        let difference = self.temperature[i] - self.temperature[i + 1];
        assert(-0x2000_0000_0000_0000_0000_0000_0000_0000 <= self.mass_flowrate * h
            <= 0x2000_0000_0000_0000_0000_0000_0000_0000) by (nonlinear_arith)
            requires
                i64::MIN <= self.mass_flowrate <= i64::MAX,
                -KNOT_LIMIT <= h <= KNOT_LIMIT,
        ;
        assert(-0x4000_0000_0000_0000_0000_0000_0000_0000 <= self.axial_conductance * difference
            <= 0x4000_0000_0000_0000_0000_0000_0000_0000) by (nonlinear_arith)
            requires
                i64::MIN <= self.axial_conductance <= i64::MAX,
                -2 * KNOT_LIMIT <= difference <= 2 * KNOT_LIMIT,
        ;
    }

    /// The enthalpy of a node lies within the bounds that its temperature
    /// being defined sets.
    pub proof fn lemma_enthalpy_bounds(self, i: int)
        requires
            self.wf(),
            0 <= i < self.len(),
        ensures
            -KNOT_LIMIT <= self.specific_enthalpy(i) <= KNOT_LIMIT,
            -KNOT_LIMIT <= self.temperature[i] <= KNOT_LIMIT,
            -KNOT_LIMIT * self.node_mass <= self.enthalpy[i] < (KNOT_LIMIT + 1) * self.node_mass,
    {
        let h = self.specific_enthalpy(i);
        assert(self.material.temperature_at(self.enthalpy[i] as int / self.node_mass as int)
            == Ok::<i64, TuasLibError>(self.temperature[i]));
        assert(self.material.specific_enthalpy.in_range(h));
        self.material.specific_enthalpy.lemma_inverse_bounds(h);
        let n = self.enthalpy[i] as int;
        let d = self.node_mass as int;
        let r = n % d;
        assert(n == d * h + r && 0 <= r < d) by {
            vstd::arithmetic::div_mod::lemma_fundamental_div_mod(n, d);
            vstd::arithmetic::div_mod::lemma_mod_bound(n, d);
        }
        assert(-KNOT_LIMIT * d <= n < (KNOT_LIMIT + 1) * d) by (nonlinear_arith)
            requires
                n == d * h + r,
                0 <= r < d,
                -KNOT_LIMIT <= h <= KNOT_LIMIT,
        ;
    }
}

/// Whether an operation succeeded, without the state that it led to.
pub open spec fn outcome<T>(result: Result<T, TuasLibError>) -> Result<(), TuasLibError> {
    match result {
        Ok(_) => Ok(()),
        Err(e) => Err(e),
    }
}

/// The state that an operation leaves: the new state where it succeeded, the
/// state `before` where it failed.
pub open spec fn state_after<T>(result: Result<T, TuasLibError>, before: T) -> T {
    match result {
        Ok(after) => after,
        Err(_) => before,
    }
}

/// A product with a factor other than zero is no nearer to zero than the
/// other factor.
pub proof fn lemma_product_no_smaller(factor: int, x: int)
    requires
        factor != 0,
    ensures
        x >= 0 ==> factor * x >= x || factor * x <= -x,
        x <= 0 ==> factor * x <= x || factor * x >= -x,
{
    if factor >= 1 {
        assert(x >= 0 ==> factor * x >= x) by (nonlinear_arith)
            requires
                factor >= 1,
        ;
        assert(x <= 0 ==> factor * x <= x) by (nonlinear_arith)
            requires
                factor >= 1,
        ;
    } else {
        assert(x >= 0 ==> factor * x <= -x) by (nonlinear_arith)
            requires
                factor <= -1,
        ;
        assert(x <= 0 ==> factor * x >= -x) by (nonlinear_arith)
            requires
                factor <= -1,
        ;
    }
}

/// An enthalpy of 2 to the 126 or more in size, whatever the mass, is a
/// specific enthalpy beyond the knot limit.
pub proof fn lemma_far_enthalpy(enthalpy: int, mass: int)
    requires
        0 < mass <= i64::MAX,
        enthalpy >= 0x4000_0000_0000_0000_0000_0000_0000_0000 || enthalpy
            < -0x4000_0000_0000_0000_0000_0000_0000_0000,
    ensures
        enthalpy / mass > KNOT_LIMIT || enthalpy / mass < -KNOT_LIMIT,
{
    let q = enthalpy / mass;
    let r = enthalpy % mass;
    assert(enthalpy == mass * q + r && 0 <= r < mass) by {
        vstd::arithmetic::div_mod::lemma_fundamental_div_mod(enthalpy, mass);
        vstd::arithmetic::div_mod::lemma_mod_bound(enthalpy, mass);
    }
    assert(q > 0x4000_0000_0000_0000 || q < -0x4000_0000_0000_0000) by (nonlinear_arith)
        requires
            enthalpy == mass * q + r,
            0 <= r < mass,
            0 < mass <= 0x7fff_ffff_ffff_ffff,
            enthalpy >= 0x4000_0000_0000_0000_0000_0000_0000_0000 || enthalpy
                < -0x4000_0000_0000_0000_0000_0000_0000_0000,
    ;
}

/// The state of the nodes of a chain.
#[derive(Clone, Debug, PartialEq)]
pub struct NodeStates {
    pub enthalpy: Vec<Energy>,
    pub temperature: Vec<ThermodynamicTemperature>,
    pub lateral_heat_rate: Vec<HeatRate>,
    pub front_heat_rate: HeatRate,
    pub back_heat_rate: HeatRate,
}

/// A chain of control volumes of one material: the common core of a single
/// control volume, a fluid array and a solid column.
#[derive(Debug, PartialEq)]
pub struct ControlVolumeColumn {
    material: Material,
    pressure: Pressure,
    node_mass: Mass,
    mass_flowrate: MassRate,
    axial_conductance: ThermalConductance,
    states: NodeStates,
}

impl View for ControlVolumeColumn {
    type V = ColumnModel;

    closed spec fn view(&self) -> ColumnModel {
        ColumnModel {
            material: self.material@,
            pressure: self.pressure,
            node_mass: self.node_mass,
            mass_flowrate: self.mass_flowrate,
            axial_conductance: self.axial_conductance,
            enthalpy: self.states.enthalpy@,
            temperature: self.states.temperature@,
            lateral_heat_rate: self.states.lateral_heat_rate@,
            front_heat_rate: self.states.front_heat_rate,
            back_heat_rate: self.states.back_heat_rate,
        }
    }
}

/// A vector of `n` zeros.
fn zeros(n: usize) -> (v: Vec<i128>)
    ensures
        v@ == Seq::new(n as nat, |i: int| 0i128),
{
    let mut v: Vec<i128> = Vec::new();
    let mut i: usize = 0;
    while i < n
        invariant
            i <= n,
            v@ == Seq::new(i as nat, |k: int| 0i128),
        decreases n - i,
    {
        v.push(0);
        assert(v@ =~= Seq::new((i + 1) as nat, |k: int| 0i128));
        i = i + 1;
    }
    v
}

/// The sum of the elements of `v`.
fn wide_sum(v: &Vec<i64>) -> (sum: i128)
    ensures
        sum == sum_of(v@),
{
    let mut sum: i128 = 0;
    let mut i: usize = 0;
    while i < v.len()
        invariant
            i <= v.len(),
            sum == sum_of(v@.take(i as int)),
            i * i64::MIN <= sum <= i * i64::MAX,
        decreases v.len() - i,
    {
        proof {
            assert(v@.take(i + 1).drop_last() == v@.take(i as int));
            assert((i + 1) * i64::MIN == i * i64::MIN + i64::MIN) by (nonlinear_arith);
            assert((i + 1) * i64::MAX == i * i64::MAX + i64::MAX) by (nonlinear_arith);
            assert(i * i64::MAX <= usize::MAX * i64::MAX) by (nonlinear_arith)
                requires
                    i <= usize::MAX,
            ;
            assert(i * i64::MIN >= usize::MAX * i64::MIN) by (nonlinear_arith)
                requires
                    i <= usize::MAX,
            ;
        }
        sum = sum + v[i] as i128;
        i = i + 1;
    }
    assert(v@.take(v.len() as int) == v@);
    sum
}

/// A copy of a vector of wide integers.
fn copy_of_wide(v: &Vec<i128>) -> (copy: Vec<i128>)
    ensures
        copy@ == v@,
{
    let mut copy: Vec<i128> = Vec::new();
    let mut i: usize = 0;
    while i < v.len()
        invariant
            i <= v.len(),
            copy@ == v@.take(i as int),
        decreases v.len() - i,
    {
        copy.push(v[i]);
        assert(copy@ == v@.take(i + 1));
        i = i + 1;
    }
    assert(v@.take(v.len() as int) == v@);
    copy
}

impl ControlVolumeColumn {
    /// Every chain is well formed.
    #[verifier::type_invariant]
    pub open spec fn well_formed(self) -> bool {
        self@.wf()
    }

    /// A chain of `number_of_nodes` nodes of mass `node_mass` each, all at
    /// `initial_temperature`, at rest and with no link registered.
    ///
    /// Fails with a dimension mismatch for no nodes, with a value that is not
    /// representable for a mass that is not positive, and with a range error
    /// where the material is not defined at `initial_temperature`.
    pub fn new(
        material: Material,
        pressure: Pressure,
        node_mass: Mass,
        number_of_nodes: usize,
        initial_temperature: ThermodynamicTemperature,
    ) -> (result: Result<ControlVolumeColumn, TuasLibError>)
        ensures
            match result {
                Ok(column) => ColumnModel::initial(
                    material@,
                    pressure,
                    node_mass,
                    number_of_nodes as nat,
                    initial_temperature,
                ) == Ok::<ColumnModel, TuasLibError>(column@),
                Err(e) => ColumnModel::initial(
                    material@,
                    pressure,
                    node_mass,
                    number_of_nodes as nat,
                    initial_temperature,
                ) == Err::<ColumnModel, TuasLibError>(e),
            },
            result matches Ok(column) ==> column@.fresh(number_of_nodes as nat, initial_temperature),
    {
        proof {
            use_type_invariant(&material);
            if material@.in_domain(initial_temperature as int) && number_of_nodes > 0 && node_mass
                > 0 {
                ColumnModel::lemma_initial_succeeds(
                    material@,
                    pressure,
                    node_mass,
                    number_of_nodes as nat,
                    initial_temperature,
                );
            }
        }
        if number_of_nodes == 0 {
            return Err(TuasLibError::DimensionMismatch);
        }
        if node_mass <= 0 {
            return Err(TuasLibError::ValueNotRepresentable);
        }
        let specific_enthalpy: i64 = match material.try_get_h(initial_temperature) {
            Ok(h) => h,
            Err(e) => {
                return Err(e);
            },
        };
        let temperature: i64 = initial_temperature;
        proof {
            material@.lemma_temperature_of_enthalpy(initial_temperature as int);
            material@.specific_enthalpy.lemma_value_within_limit(initial_temperature as int);
            assert(i128::MIN <= specific_enthalpy * node_mass <= i128::MAX) by (nonlinear_arith)
                requires
                    -KNOT_LIMIT <= specific_enthalpy <= KNOT_LIMIT,
                    0 < node_mass <= i64::MAX,
            ;
        }
        let enthalpy: i128 = (specific_enthalpy as i128) * (node_mass as i128);
        let mut enthalpies: Vec<i128> = Vec::new();
        let mut temperatures: Vec<i64> = Vec::new();
        let mut i: usize = 0;
        while i < number_of_nodes
            invariant
                i <= number_of_nodes,
                enthalpies@ == Seq::new(i as nat, |k: int| enthalpy),
                temperatures@ == Seq::new(i as nat, |k: int| temperature),
            decreases number_of_nodes - i,
        {
            enthalpies.push(enthalpy);
            temperatures.push(temperature);
            assert(enthalpies@ =~= Seq::new((i + 1) as nat, |k: int| enthalpy));
            assert(temperatures@ =~= Seq::new((i + 1) as nat, |k: int| temperature));
            i = i + 1;
        }
        let states = NodeStates {
            enthalpy: enthalpies,
            temperature: temperatures,
            lateral_heat_rate: zeros(number_of_nodes),
            front_heat_rate: 0,
            back_heat_rate: 0,
        };
        proof {
            assert((specific_enthalpy * node_mass) / (node_mass as int) == specific_enthalpy)
                by (nonlinear_arith)
                requires
                    node_mass > 0,
            ;
            let model = ColumnModel {
                material: material@,
                pressure,
                node_mass,
                mass_flowrate: 0,
                axial_conductance: 0,
                enthalpy: states.enthalpy@,
                temperature: states.temperature@,
                lateral_heat_rate: states.lateral_heat_rate@,
                front_heat_rate: 0,
                back_heat_rate: 0,
            };
            assert forall|k: int| 0 <= k < model.len() implies model.material.temperature_at(
                #[trigger] model.enthalpy[k] as int / node_mass as int,
            ) == Ok::<i64, TuasLibError>(model.temperature[k]) by {
                assert(model.enthalpy[k] == specific_enthalpy * node_mass);
            }
        }
        Ok(
            ControlVolumeColumn {
                material,
                pressure,
                node_mass,
                mass_flowrate: 0,
                axial_conductance: 0,
                states,
            },
        )
    }

    /// A chain of `number_of_nodes` equal nodes that fills a prism of the
    /// given cross section and length with the material at
    /// `initial_temperature`.
    ///
    /// Fails as `new` does, with a value that is not representable where the
    /// mass of the prism is, or where a node would have no mass.
    pub fn new_prism(
        material: Material,
        pressure: Pressure,
        cross_sectional_area: Area,
        length: Length,
        number_of_nodes: usize,
        initial_temperature: ThermodynamicTemperature,
    ) -> (result: Result<ControlVolumeColumn, TuasLibError>)
        ensures
            match result {
                Ok(column) => ColumnModel::initial_prism(
                    material@,
                    pressure,
                    cross_sectional_area,
                    length,
                    number_of_nodes as nat,
                    initial_temperature,
                ) == Ok::<ColumnModel, TuasLibError>(column@),
                Err(e) => ColumnModel::initial_prism(
                    material@,
                    pressure,
                    cross_sectional_area,
                    length,
                    number_of_nodes as nat,
                    initial_temperature,
                ) == Err::<ColumnModel, TuasLibError>(e),
            },
            result matches Ok(column) ==> column@.fresh(number_of_nodes as nat, initial_temperature),
    {
        if number_of_nodes == 0 {
            return Err(TuasLibError::DimensionMismatch);
        }
        let density: i64 = match material.try_get_rho(initial_temperature) {
            Ok(density) => density,
            Err(e) => {
                return Err(e);
            },
        };
        let mass: i64 = match mul_mul_div(
            density,
            cross_sectional_area,
            length,
            CUBIC_MICROMETRE_GRAMS_PER_MICROGRAM,
        ) {
            Ok(mass) => mass,
            Err(e) => {
                return Err(e);
            },
        };
        let node_mass: i64 = if mass >= 0 {
            proof {
                crate::fixed_point::lemma_quotient_bounds(mass as int, number_of_nodes as int);
            }
            ((mass as i128) / (number_of_nodes as i128)) as i64
        } else {
            0
        };
        ControlVolumeColumn::new(
            material,
            pressure,
            node_mass,
            number_of_nodes,
            initial_temperature,
        )
    }

    /// The number of nodes of the chain.
    pub fn number_of_nodes(&self) -> (n: usize)
        ensures
            n == self@.len(),
            n >= 1,
    {
        proof {
            use_type_invariant(self);
        }
        self.states.enthalpy.len()
    }

    /// The temperatures of the nodes, from the back to the front.
    pub fn temperature_vector(&self) -> (temperatures: Vec<ThermodynamicTemperature>)
        ensures
            temperatures@ == self@.temperature,
    {
        copy_of(&self.states.temperature)
    }

    /// The material of the chain.
    pub fn material(&self) -> (material: &Material)
        ensures
            material@ == self@.material,
    {
        &self.material
    }

    pub fn pressure(&self) -> (pressure: Pressure)
        ensures
            pressure == self@.pressure,
    {
        self.pressure
    }

    pub fn node_mass(&self) -> (mass: Mass)
        ensures
            mass == self@.node_mass,
            mass > 0,
    {
        proof {
            use_type_invariant(self);
        }
        self.node_mass
    }

    pub fn mass_flowrate(&self) -> (mass_flowrate: MassRate)
        ensures
            mass_flowrate == self@.mass_flowrate,
    {
        self.mass_flowrate
    }

    pub fn axial_conductance(&self) -> (conductance: ThermalConductance)
        ensures
            conductance == self@.axial_conductance,
    {
        self.axial_conductance
    }

    /// Sets the conductance between the centres of neighbouring nodes.
    pub fn set_axial_conductance(&mut self, conductance: ThermalConductance)
        ensures
            final(self)@ == (ColumnModel { axial_conductance: conductance, ..old(self)@ }),
    {
        proof {
            use_type_invariant(&*self);
        }
        self.axial_conductance = conductance;
    }

    /// The temperature of the node at the back end.
    pub fn back_temperature(&self) -> (temperature: ThermodynamicTemperature)
        ensures
            temperature == self@.back_temperature(),
            -KNOT_LIMIT <= temperature <= KNOT_LIMIT,
    {
        proof {
            use_type_invariant(self);
            self@.lemma_enthalpy_bounds(0);
        }
        self.states.temperature[0]
    }

    /// The temperature of the node at the front end.
    pub fn front_temperature(&self) -> (temperature: ThermodynamicTemperature)
        ensures
            temperature == self@.front_temperature(),
            -KNOT_LIMIT <= temperature <= KNOT_LIMIT,
    {
        proof {
            use_type_invariant(self);
            self@.lemma_enthalpy_bounds(self@.len() - 1);
        }
        self.states.temperature[self.states.temperature.len() - 1]
    }

    /// The enthalpy of node `i` per unit of mass.
    pub fn specific_enthalpy(&self, i: usize) -> (specific_enthalpy: i64)
        requires
            i < self@.len(),
        ensures
            specific_enthalpy == self@.specific_enthalpy(i as int),
            -KNOT_LIMIT <= specific_enthalpy <= KNOT_LIMIT,
    {
        proof {
            use_type_invariant(self);
            self@.lemma_enthalpy_bounds(i as int);
        }
        match self.states.enthalpy[i].checked_div_euclid(self.node_mass as i128) {
            Some(h) => h as i64,
            None => 0,
        }
    }

    /// The mean of the node temperatures, rounded towards minus infinity.
    pub fn bulk_temperature(&self) -> (temperature: ThermodynamicTemperature)
        ensures
            temperature == self@.bulk_temperature(),
    {
        proof {
            use_type_invariant(self);
        }
        let n: usize = self.states.temperature.len();
        let sum: i128 = wide_sum(&self.states.temperature);
        proof {
            lemma_sum_bounds(self.states.temperature@);
            assert(i64::MIN <= sum as int / n as int <= i64::MAX) by (nonlinear_arith)
                requires
                    n * i64::MIN <= sum <= n * i64::MAX,
                    n > 0,
            ;
        }
        match sum.checked_div_euclid(n as i128) {
            Some(mean) => mean as i64,
            None => 0,
        }
    }

    /// Registers a lateral link of conductance `conductance` from each node
    /// `i` to the temperature `temperatures[i]`.
    ///
    /// Fails with a dimension mismatch unless there is one temperature for
    /// each node, and with a value that is not representable where the heat
    /// rate registered at a node leaves 128 bits. A failure leaves the chain
    /// as it was.
    pub fn lateral_link_new_temperature_vector_avg_conductance(
        &mut self,
        conductance: ThermalConductance,
        temperatures: &Vec<ThermodynamicTemperature>,
    ) -> (result: Result<(), TuasLibError>)
        ensures
            result == outcome(
                old(self)@.with_lateral_temperatures(conductance, temperatures@),
            ),
            final(self)@ == state_after(
                old(self)@.with_lateral_temperatures(conductance, temperatures@),
                old(self)@,
            ),
            temperatures@.len() != old(self)@.len() ==> result == Err::<(), TuasLibError>(
                TuasLibError::DimensionMismatch,
            ),
            result is Err ==> final(self)@ == old(self)@,
    {
        proof {
            use_type_invariant(&*self);
        }
        let n: usize = self.states.temperature.len();
        if temperatures.len() != n {
            return Err(TuasLibError::DimensionMismatch);
        }
        let ghost model = self@;
        let mut rates: Vec<i128> = Vec::new();
        let mut i: usize = 0;
        while i < n
            invariant
                i <= n,
                model == self@,
                model.wf(),
                n == model.len(),
                n == temperatures.len(),
                rates.len() == i,
                forall|k: int|
                    0 <= k < i ==> fits_i128(
                        #[trigger] model.lateral_heat_rate[k] + conductance * (temperatures[k]
                            - model.temperature[k]),
                    ),
                forall|k: int|
                    0 <= k < i ==> #[trigger] rates[k] == model.lateral_heat_rate[k] + conductance
                        * (temperatures[k] - model.temperature[k]),
            decreases n - i,
        {
            let difference: i128 = temperatures[i] as i128 - self.states.temperature[i] as i128;
            assert(i128::MIN <= conductance * difference <= i128::MAX) by (nonlinear_arith)
                requires
                    i64::MIN <= conductance <= i64::MAX,
                    -0xffff_ffff_ffff_ffff <= difference <= 0xffff_ffff_ffff_ffff,
            ;
            let rate: i128 = (conductance as i128) * difference;
            match self.states.lateral_heat_rate[i].checked_add(rate) {
                Some(sum) => {
                    rates.push(sum);
                },
                None => {
                    assert(!fits_i128(
                        model.lateral_heat_rate[i as int] + conductance * (temperatures[i as int]
                            - model.temperature[i as int]),
                    ));
                    return Err(TuasLibError::ValueNotRepresentable);
                },
            }
            i = i + 1;
        }
        proof {
            let after = model.with_lateral_temperatures(conductance, temperatures@);
            assert(after is Ok);
            assert(rates@ =~= after->Ok_0.lateral_heat_rate);
        }
        self.states.lateral_heat_rate = rates;
        Ok(())
    }

    /// Registers a lateral link that spreads the power `total_power` over
    /// the nodes in the shares `fractions`, in millionths. Shares that sum
    /// to one hand out the whole power, to the last nanowatt.
    ///
    /// Fails with a dimension mismatch unless there is one share for each
    /// node and the shares sum to one, give or take one millionth per node,
    /// and with a value that is not representable where the heat rate
    /// registered at a node leaves 128 bits. A failure leaves the chain as it
    /// was.
    pub fn lateral_link_new_power_vector(&mut self, total_power: Power, fractions: &Vec<Ratio>) -> (result:
        Result<(), TuasLibError>)
        ensures
            result == outcome(old(self)@.with_lateral_power(total_power, fractions@)),
            final(self)@ == state_after(
                old(self)@.with_lateral_power(total_power, fractions@),
                old(self)@,
            ),
            fractions@.len() != old(self)@.len() ==> result == Err::<(), TuasLibError>(
                TuasLibError::DimensionMismatch,
            ),
            result is Err ==> final(self)@ == old(self)@,
    {
        proof {
            use_type_invariant(&*self);
        }
        let n: usize = self.states.temperature.len();
        if fractions.len() != n {
            return Err(TuasLibError::DimensionMismatch);
        }
        let sum: i128 = wide_sum(fractions);
        if sum < RATIO_ONE as i128 - n as i128 || sum > RATIO_ONE as i128 + n as i128 {
            return Err(TuasLibError::DimensionMismatch);
        }
        let ghost model = self@;
        let mut rates: Vec<i128> = Vec::new();
        let mut taken: i128 = 0;
        let mut handed_out: i128 = 0;
        let mut i: usize = 0;
        proof {
            assert(fractions@.take(0).len() == 0);
            assert(total_power * 0 == 0) by (nonlinear_arith);
        }
        while i < n
            invariant
                i <= n,
                model == self@,
                model.wf(),
                n == model.len(),
                n == fractions.len(),
                RATIO_ONE - n <= sum_of(fractions@) <= RATIO_ONE + n,
                rates.len() == i,
                taken == sum_of(fractions@.take(i as int)),
                i * i64::MIN <= taken <= i * i64::MAX,
                handed_out == cumulative_power(total_power, fractions@, i as int),
                -0x2000_0000_0000_0000_0000_0000_0000_0000 <= handed_out
                    <= 0x2000_0000_0000_0000_0000_0000_0000_0000,
                forall|k: int|
                    0 <= k < i ==> #[trigger] model.power_share_fits(total_power, fractions@, k),
                forall|k: int|
                    0 <= k < i ==> #[trigger] rates[k] == model.lateral_heat_rate[k] + power_share(
                        total_power,
                        fractions@,
                        k,
                    ),
            decreases n - i,
        {
            proof {
                assert(fractions@.take(i + 1).drop_last() == fractions@.take(i as int));
                assert((i + 1) * i64::MIN == i * i64::MIN + i64::MIN) by (nonlinear_arith);
                assert((i + 1) * i64::MAX == i * i64::MAX + i64::MAX) by (nonlinear_arith);
                assert(i * i64::MAX <= usize::MAX * i64::MAX) by (nonlinear_arith)
                    requires
                        i <= usize::MAX,
                ;
                assert(i * i64::MIN >= usize::MAX * i64::MIN) by (nonlinear_arith)
                    requires
                        i <= usize::MAX,
                ;
            }
            let taken_after: i128 = taken + fractions[i] as i128;
            let product: i128 = match (total_power as i128).checked_mul(taken_after) {
                Some(product) => product,
                None => {
                    assert(!model.power_share_fits(total_power, fractions@, i as int));
                    return Err(TuasLibError::ValueNotRepresentable);
                },
            };
            proof {
                lemma_millionth_bounds(product as int);
            }
            let handed_out_after: i128 = match product.checked_div(RATIO_ONE as i128) {
                Some(q) => q,
                None => 0,
            };
            let share: i128 = handed_out_after - handed_out;
            assert(share == power_share(total_power, fractions@, i as int));
            match self.states.lateral_heat_rate[i].checked_add(share) {
                Some(sum) => {
                    rates.push(sum);
                },
                None => {
                    assert(!model.power_share_fits(total_power, fractions@, i as int));
                    return Err(TuasLibError::ValueNotRepresentable);
                },
            }
            assert(model.power_share_fits(total_power, fractions@, i as int));
            taken = taken_after;
            handed_out = handed_out_after;
            i = i + 1;
        }
        proof {
            let after = model.with_lateral_power(total_power, fractions@);
            assert(after is Ok);
            assert(rates@ =~= after->Ok_0.lateral_heat_rate);
        }
        self.states.lateral_heat_rate = rates;
        Ok(())
    }

    /// The heat rate across the face between node `i` and node `i + 1`.
    fn face_heat_rate(&self, i: usize) -> (rate: i128)
        requires
            i + 1 < self@.len(),
        ensures
            rate == self@.face_heat_rate(i as int),
    {
        proof {
            use_type_invariant(self);
            self@.lemma_enthalpy_bounds(i as int);
            self@.lemma_enthalpy_bounds(i + 1);
            assert(self@.len() == self.states.enthalpy.len());
        }
        let upstream: usize = if self.mass_flowrate >= 0 {
            i
        } else {
            i + 1
        };
        let specific_enthalpy: i64 = self.specific_enthalpy(upstream);
        let difference: i128 = self.states.temperature[i] as i128 - self.states.temperature[i
            + 1] as i128;
        assert(-0x2000_0000_0000_0000_0000_0000_0000_0000 <= self.mass_flowrate * specific_enthalpy
            <= 0x2000_0000_0000_0000_0000_0000_0000_0000) by (nonlinear_arith)
            requires
                i64::MIN <= self.mass_flowrate <= i64::MAX,
                -KNOT_LIMIT <= specific_enthalpy <= KNOT_LIMIT,
        ;
        assert(-0x4000_0000_0000_0000_0000_0000_0000_0000 <= self.axial_conductance * difference
            <= 0x4000_0000_0000_0000_0000_0000_0000_0000) by (nonlinear_arith)
            requires
                i64::MIN <= self.axial_conductance <= i64::MAX,
                -2 * KNOT_LIMIT <= difference <= 2 * KNOT_LIMIT,
        ;
        let advected: i128 = (self.mass_flowrate as i128) * (specific_enthalpy as i128);
        let conducted: i128 = (self.axial_conductance as i128) * difference;
        advected + conducted
    }

    /// The sum of all heat rates into node `i`, where it fits 128 bits.
    fn net_heat_rate(&self, i: usize) -> (rate: Option<i128>)
        requires
            i < self@.len(),
        ensures
            rate == if fits_i128(self@.net_heat_rate(i as int)) {
                Some(self@.net_heat_rate(i as int) as i128)
            } else {
                None::<i128>
            },
    {
        proof {
            use_type_invariant(self);
        }
        let from_back: i128 = if i == 0 {
            self.states.back_heat_rate
        } else {
            self.face_heat_rate(i - 1)
        };
        let from_front: i128 = if i == self.states.enthalpy.len() - 1 {
            self.states.front_heat_rate
        } else {
            let outward: i128 = self.face_heat_rate(i);
            proof {
                self@.lemma_enthalpy_bounds(i as int);
                self@.lemma_enthalpy_bounds(i + 1);
                self@.lemma_face_heat_rate_bounds(i as int);
            }
            -outward
        };
        sum_of_three(self.states.lateral_heat_rate[i], from_back, from_front)
    }

    /// The enthalpy and the temperature of node `i` after a step of `timestep`.
    fn node_after(&self, i: usize, timestep: Time) -> (result: Result<
        (Energy, ThermodynamicTemperature),
        TuasLibError,
    >)
        requires
            i < self@.len(),
        ensures
            match result {
                Ok((enthalpy, temperature)) => {
                    &&& enthalpy == self@.enthalpy_after(i as int, timestep)
                    &&& self@.temperature_after(i as int, timestep) == Ok::<i64, TuasLibError>(
                        temperature,
                    )
                },
                Err(e) => {
                    &&& self@.temperature_after(i as int, timestep) is Err
                    &&& e == TuasLibError::ThermophysicalPropertyTemperatureRangeError
                },
            },
    {
        proof {
            use_type_invariant(self);
            use_type_invariant(&self.material);
            self@.lemma_enthalpy_bounds(i as int);
        }
        let ghost model = self@;
        let ghost rate = model.net_heat_rate(i as int);
        let ghost after = model.enthalpy_after(i as int, timestep);
        let ghost mass = self.node_mass as int;
        let ghost inverse = model.material.specific_enthalpy;
        proof {
            assert(-0x4000_0000_0000_0000_0000_0000_0000_0000 <= model.enthalpy[i as int]
                <= 0x4000_0000_0000_0000_0000_0000_0000_0000) by (nonlinear_arith)
                requires
                    -KNOT_LIMIT * mass <= model.enthalpy[i as int] < (KNOT_LIMIT + 1) * mass,
                    0 < mass <= i64::MAX,
            ;
            // beyond the knot limit the inverse of the enthalpy is not defined
            assert forall|x: int| #[trigger] inverse.in_range(x) implies -KNOT_LIMIT <= x
                <= KNOT_LIMIT by {
                inverse.lemma_inverse_bounds(x);
            }
        }
        assert(rate * timestep == timestep * rate) by (nonlinear_arith);
        let change: i128 = if timestep == 0 {
            0
        } else {
            let product: Option<i128> = match self.net_heat_rate(i) {
                Some(rate) => rate.checked_mul(timestep as i128),
                None => None,
            };
            match product {
                Some(change) => change,
                None => {
                    proof {
                        if !fits_i128(rate) {
                            lemma_product_no_smaller(timestep as int, rate);
                        }
                        lemma_far_enthalpy(after, mass);
                    }
                    return Err(TuasLibError::ThermophysicalPropertyTemperatureRangeError);
                },
            }
        };
        assert(change == timestep * rate) by (nonlinear_arith)
            requires
                timestep == 0 ==> change == 0,
                timestep != 0 ==> change == timestep * rate,
        ;
        let enthalpy: i128 = match self.states.enthalpy[i].checked_add(change) {
            Some(enthalpy) => enthalpy,
            None => {
                proof {
                    lemma_far_enthalpy(after, mass);
                }
                return Err(TuasLibError::ThermophysicalPropertyTemperatureRangeError);
            },
        };
        proof {
            crate::fixed_point::lemma_quotient_bounds(enthalpy as int, mass);
        }
        let wide: i128 = match enthalpy.checked_div_euclid(self.node_mass as i128) {
            Some(q) => q,
            None => 0,
        };
        if wide < -KNOT_LIMIT as i128 || wide > KNOT_LIMIT as i128 {
            return Err(TuasLibError::ThermophysicalPropertyTemperatureRangeError);
        }
        match self.material.try_get_temperature_from_h(wide as i64) {
            Ok(temperature) => Ok((enthalpy, temperature)),
            Err(e) => Err(e),
        }
    }

    /// Advances the chain by `timestep`: the enthalpy of each node grows by
    /// `timestep` times the sum of the heat rates into the node, its
    /// temperature follows from the new enthalpy, and the links are consumed.
    ///
    /// Fails with a range error where the material is not defined at the new
    /// specific enthalpy of a node. A failure leaves the chain as it was.
    pub fn advance_timestep(&mut self, timestep: Time) -> (result: Result<(), TuasLibError>)
        ensures
            result == outcome(old(self)@.advanced(timestep)),
            final(self)@ == state_after(old(self)@.advanced(timestep), old(self)@),
            result is Err ==> final(self)@ == old(self)@,
    {
        proof {
            use_type_invariant(&*self);
        }
        let n: usize = self.states.enthalpy.len();
        let ghost model = self@;
        let mut enthalpies: Vec<i128> = Vec::new();
        let mut temperatures: Vec<i64> = Vec::new();
        let mut i: usize = 0;
        while i < n
            invariant
                i <= n,
                model == self@,
                model.wf(),
                n == model.len(),
                enthalpies.len() == i,
                temperatures.len() == i,
                forall|k: int|
                    0 <= k < i ==> #[trigger] model.temperature_after(k, timestep) == Ok::<
                        i64,
                        TuasLibError,
                    >(temperatures[k]),
                forall|k: int|
                    0 <= k < i ==> #[trigger] enthalpies[k] == model.enthalpy_after(k, timestep),
            decreases n - i,
        {
            match self.node_after(i, timestep) {
                Ok((enthalpy, temperature)) => {
                    enthalpies.push(enthalpy);
                    temperatures.push(temperature);
                },
                Err(e) => {
                    assert(!(model.temperature_after(i as int, timestep) is Ok));
                    return Err(e);
                },
            }
            i = i + 1;
        }
        let states = NodeStates {
            enthalpy: enthalpies,
            temperature: temperatures,
            lateral_heat_rate: zeros(n),
            front_heat_rate: 0,
            back_heat_rate: 0,
        };
        proof {
            let after = model.advanced(timestep);
            assert(after is Ok);
            assert(states.enthalpy@ =~= after->Ok_0.enthalpy);
            assert(states.temperature@ =~= after->Ok_0.temperature);
            assert forall|k: int| 0 <= k < states.enthalpy@.len() implies model.material.temperature_at(
                #[trigger] states.enthalpy@[k] as int / model.node_mass as int,
            ) == Ok::<i64, TuasLibError>(states.temperature@[k]) by {
                assert(model.temperature_after(k, timestep) == Ok::<i64, TuasLibError>(
                    states.temperature@[k],
                ));
                assert(states.enthalpy@[k] == model.enthalpy_after(k, timestep));
            }
        }
        self.states = states;
        Ok(())
    }

    /// Sets the heat rate into the last node from the axial link at the
    /// front. It replaces what an earlier link at the front has set.
    pub fn link_front_heat_rate(&mut self, heat_rate: HeatRate)
        ensures
            final(self)@ == (ColumnModel { front_heat_rate: heat_rate, ..old(self)@ }),
    {
        proof {
            use_type_invariant(&*self);
        }
        self.states.front_heat_rate = heat_rate;
    }

    /// Sets the heat rate into node 0 from the axial link at the back. It
    /// replaces what an earlier link at the back has set.
    pub fn link_back_heat_rate(&mut self, heat_rate: HeatRate)
        ensures
            final(self)@ == (ColumnModel { back_heat_rate: heat_rate, ..old(self)@ }),
    {
        proof {
            use_type_invariant(&*self);
        }
        self.states.back_heat_rate = heat_rate;
    }

    /// A copy of the chain.
    pub fn duplicate(&self) -> (copy: ControlVolumeColumn)
        ensures
            copy@ == self@,
    {
        proof {
            use_type_invariant(self);
        }
        ControlVolumeColumn {
            material: self.material.duplicate(),
            pressure: self.pressure,
            node_mass: self.node_mass,
            mass_flowrate: self.mass_flowrate,
            axial_conductance: self.axial_conductance,
            states: NodeStates {
                enthalpy: copy_of_wide(&self.states.enthalpy),
                temperature: copy_of(&self.states.temperature),
                lateral_heat_rate: copy_of_wide(&self.states.lateral_heat_rate),
                front_heat_rate: self.states.front_heat_rate,
                back_heat_rate: self.states.back_heat_rate,
            },
        }
    }

    /// The enthalpy of each node.
    pub fn enthalpy_vector(&self) -> (enthalpies: Vec<Energy>)
        ensures
            enthalpies@ == self@.enthalpy,
    {
        copy_of_wide(&self.states.enthalpy)
    }

    /// The heat rate that the lateral links have registered at each node.
    pub fn lateral_heat_rate_vector(&self) -> (rates: Vec<HeatRate>)
        ensures
            rates@ == self@.lateral_heat_rate,
    {
        copy_of_wide(&self.states.lateral_heat_rate)
    }

    /// The heat rate of the axial link at the front.
    pub fn front_heat_rate(&self) -> (rate: HeatRate)
        ensures
            rate == self@.front_heat_rate,
    {
        self.states.front_heat_rate
    }

    /// The heat rate of the axial link at the back.
    pub fn back_heat_rate(&self) -> (rate: HeatRate)
        ensures
            rate == self@.back_heat_rate,
    {
        self.states.back_heat_rate
    }

    /// Sets the mass flow through the chain, positive from the back to the front.
    pub fn set_mass_flowrate(&mut self, mass_flowrate: MassRate)
        ensures
            final(self)@ == (ColumnModel { mass_flowrate, ..old(self)@ }),
    {
        proof {
            use_type_invariant(&*self);
        }
        self.mass_flowrate = mass_flowrate;
    }
}

impl Clone for ControlVolumeColumn {
    fn clone(&self) -> (copy: ControlVolumeColumn)
        ensures
            copy@ == self@,
    {
        self.duplicate()
    }
}

} // verus!
