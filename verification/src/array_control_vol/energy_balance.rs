use vstd::prelude::*;
use crate::array_control_vol::column::{cumulative_power, power_share, sum_of, ColumnModel};
use crate::fixed_point::fits_i128;
use crate::tuas_lib_error::TuasLibError;
use crate::units::{
    Energy, Power, Ratio, ThermalConductance, ThermodynamicTemperature, Time, RATIO_ONE,
};

verus! {

/// The sum of the elements of `s`.
pub open spec fn total(s: Seq<i128>) -> int
    decreases s.len(),
{
    if s.len() == 0 {
        0
    } else {
        total(s.drop_last()) + s.last()
    }
}

/// A power reversed is handed out reversed, share by share: what a node
/// gains of a power it loses of the opposite power.
pub proof fn lemma_reversed_power_is_shared_alike(
    total_power: Power,
    fractions: Seq<Ratio>,
    i: int,
)
    requires
        total_power > i64::MIN,
    ensures
        power_share((-total_power) as i64, fractions, i) == -power_share(
            total_power,
            fractions,
            i,
        ),
{
    let before = sum_of(fractions.take(i));
    let after = sum_of(fractions.take(i + 1));
    assert((-total_power) * before == -(total_power * before)) by (nonlinear_arith);
    assert((-total_power) * after == -(total_power * after)) by (nonlinear_arith);
}

impl ColumnModel {
    /// The sum of the net heat rates into the nodes below node `k`.
    pub open spec fn net_heat_rate_below(self, k: int) -> int
        decreases k,
    {
        if k <= 0 {
            0
        } else {
            self.net_heat_rate_below(k - 1) + self.net_heat_rate(k - 1)
        }
    }

    /// The heat rate into the chain from outside: through its lateral links
    /// and through the axial links at its two ends.
    pub open spec fn heat_rate_from_outside(self) -> int {
        total(self.lateral_heat_rate) + self.back_heat_rate + self.front_heat_rate
    }

    /// The enthalpy of the whole chain.
    pub open spec fn total_enthalpy(self) -> int {
        total(self.enthalpy)
    }

    /// What crosses the faces inside the chain leaves one node and enters the
    /// next, so the net heat rates of the nodes below `k` sum to what enters
    /// them from outside less what leaves node `k - 1` through its front face.
    pub proof fn lemma_faces_cancel(self, k: int)
        requires
            1 <= k <= self.len(),
            self.lateral_heat_rate.len() == self.len(),
        ensures
            self.net_heat_rate_below(k) == total(self.lateral_heat_rate.take(k))
                + self.back_heat_rate + self.heat_rate_from_front(k - 1),
        decreases k,
    {
        let lateral = self.lateral_heat_rate;
        assert(lateral.take(k).drop_last() == lateral.take(k - 1));
        assert(lateral.take(k).last() == lateral[k - 1]);
        assert(total(lateral.take(k)) == total(lateral.take(k - 1)) + lateral[k - 1]);
        assert(self.net_heat_rate_below(k) == self.net_heat_rate_below(k - 1) + self.net_heat_rate(
            k - 1,
        ));
        if k == 1 {
            assert(self.net_heat_rate_below(0) == 0);
            assert(lateral.take(0).len() == 0);
            assert(total(lateral.take(0)) == 0);
            assert(self.heat_rate_from_back(0) == self.back_heat_rate);
        } else {
            self.lemma_faces_cancel(k - 1);
            assert(self.heat_rate_from_front(k - 2) == -self.face_heat_rate(k - 2));
            assert(self.heat_rate_from_back(k - 1) == self.face_heat_rate(k - 2));
        }
    }

    /// The net heat rates of all nodes sum to the heat rate from outside.
    pub proof fn lemma_net_heat_rates_sum(self)
        requires
            self.len() >= 1,
            self.lateral_heat_rate.len() == self.len(),
        ensures
            self.net_heat_rate_below(self.len()) == self.heat_rate_from_outside(),
    {
        self.lemma_faces_cancel(self.len());
        assert(self.lateral_heat_rate.take(self.len()) == self.lateral_heat_rate);
    }

    /// Energy balance of one step: the enthalpy of the chain grows by the
    /// time step times the heat rate from outside. Nothing is lost or made
    /// inside the chain.
    pub proof fn lemma_step_conserves_energy(self, timestep: Time)
        requires
            self.wf(),
            self.advanced(timestep) is Ok,
        ensures
            self.advanced(timestep)->Ok_0.total_enthalpy() == self.total_enthalpy() + timestep
                * self.heat_rate_from_outside(),
    {
        let after = self.advanced(timestep)->Ok_0;
        self.lemma_enthalpy_sums(after, timestep, self.len());
        assert(after.enthalpy.take(self.len()) == after.enthalpy);
        assert(self.enthalpy.take(self.len()) == self.enthalpy);
        self.lemma_net_heat_rates_sum();
    }

    proof fn lemma_enthalpy_sums(self, after: ColumnModel, timestep: Time, k: int)
        requires
            self.wf(),
            self.advanced(timestep) == Ok::<ColumnModel, TuasLibError>(after),
            0 <= k <= self.len(),
        ensures
            total(after.enthalpy.take(k)) == total(self.enthalpy.take(k)) + timestep
                * self.net_heat_rate_below(k),
        decreases k,
    {
        if k == 0 {
            assert(after.enthalpy.take(0).len() == 0);
            assert(self.enthalpy.take(0).len() == 0);
        } else {
            self.lemma_enthalpy_sums(after, timestep, k - 1);
            assert(after.enthalpy.take(k).drop_last() == after.enthalpy.take(k - 1));
            assert(self.enthalpy.take(k).drop_last() == self.enthalpy.take(k - 1));
            self.lemma_enthalpy_after_fits(timestep, k - 1);
            assert(after.enthalpy[k - 1] == self.enthalpy_after(k - 1, timestep));
            assert(timestep * self.net_heat_rate_below(k) == timestep * self.net_heat_rate_below(
                k - 1,
            ) + timestep * self.net_heat_rate(k - 1)) by (nonlinear_arith)
                requires
                    self.net_heat_rate_below(k) == self.net_heat_rate_below(k - 1)
                        + self.net_heat_rate(k - 1),
            ;
        }
    }

    /// Where the temperature of a node after a step is defined, its enthalpy
    /// after the step fits 128 bits.
    pub proof fn lemma_enthalpy_after_fits(self, timestep: Time, i: int)
        requires
            self.wf(),
            0 <= i < self.len(),
            self.temperature_after(i, timestep) is Ok,
        ensures
            fits_i128(self.enthalpy_after(i, timestep)),
    {
        let after = self.enthalpy_after(i, timestep);
        let inverse = self.material.specific_enthalpy;
        let h = after / self.node_mass as int;
        assert(inverse.in_range(h));
        inverse.lemma_inverse_bounds(h);
        if !fits_i128(after) {
            crate::array_control_vol::column::lemma_far_enthalpy(after, self.node_mass as int);
        }
    }

    /// A step leaves a valid chain valid: as many nodes of the same mass
    /// and material, the same flow, each temperature that of the new
    /// enthalpy, and no link left.
    pub proof fn lemma_step_keeps_validity(self, timestep: Time)
        requires
            self.wf(),
            self.advanced(timestep) is Ok,
        ensures
            self.advanced(timestep)->Ok_0.wf(),
            self.advanced(timestep)->Ok_0.unlinked(),
            self.advanced(timestep)->Ok_0.len() == self.len(),
            self.advanced(timestep)->Ok_0.mass_flowrate == self.mass_flowrate,
    {
        let after = self.advanced(timestep)->Ok_0;
        assert forall|i: int| 0 <= i < after.enthalpy.len() implies self.material.temperature_at(
            #[trigger] after.enthalpy[i] as int / self.node_mass as int,
        ) == Ok::<i64, TuasLibError>(after.temperature[i]) by {
            assert(self.temperature_after(i, timestep) is Ok);
            self.lemma_enthalpy_after_fits(timestep, i);
        }
    }

    /// A step without heat changes nothing but the links: where no node has
    /// a net heat rate, the step succeeds whatever the time step, and leaves
    /// every enthalpy and every temperature as it was.
    pub proof fn lemma_step_without_heat_changes_nothing(self, timestep: Time)
        requires
            self.wf(),
            forall|i: int| 0 <= i < self.len() ==> #[trigger] self.net_heat_rate(i) == 0,
        ensures
            self.advanced(timestep) matches Ok(after) && after.enthalpy == self.enthalpy
                && after.temperature == self.temperature && after.unlinked() && after.wf(),
    {
        assert forall|i: int| 0 <= i < self.len() implies #[trigger] self.enthalpy_after(
            i,
            timestep,
        ) == self.enthalpy[i] && self.temperature_after(i, timestep) == Ok::<i64, TuasLibError>(
            self.temperature[i],
        ) by {
            assert(self.net_heat_rate(i) == 0);
            assert(timestep * self.net_heat_rate(i) == 0) by (nonlinear_arith)
                requires
                    self.net_heat_rate(i) == 0,
            ;
            assert(self.material.temperature_at(self.enthalpy[i] as int / self.node_mass as int)
                == Ok::<i64, TuasLibError>(self.temperature[i]));
        }
        let after = self.advanced(timestep)->Ok_0;
        assert(after.enthalpy =~= self.enthalpy);
        assert(after.temperature =~= self.temperature);
    }

    /// A chain at rest at one temperature, with no link registered, has no
    /// net heat rate at any node.
    pub proof fn lemma_uniform_chain_at_rest_has_no_heat(self)
        requires
            self.wf(),
            self.unlinked(),
            self.mass_flowrate == 0,
            forall|i: int| 0 <= i < self.len() ==> #[trigger] self.temperature[i]
                == self.temperature[0],
        ensures
            forall|i: int| 0 <= i < self.len() ==> #[trigger] self.net_heat_rate(i) == 0,
    {
        assert forall|i: int| 0 <= i < self.len() - 1 implies #[trigger] self.face_heat_rate(i)
            == 0 by {
            assert(self.temperature[i] == self.temperature[0]);
            assert(self.temperature[i + 1] == self.temperature[0]);
            let upstream = if self.mass_flowrate >= 0 {
                i
            } else {
                i + 1
            };
            assert(self.mass_flowrate * self.specific_enthalpy(upstream) == 0) by (nonlinear_arith)
                requires
                    self.mass_flowrate == 0,
            ;
            assert(self.axial_conductance * (self.temperature[i] - self.temperature[i + 1]) == 0)
                by (nonlinear_arith)
                requires
                    self.temperature[i] - self.temperature[i + 1] == 0,
            ;
        }
        assert forall|i: int| 0 <= i < self.len() implies #[trigger] self.net_heat_rate(i)
            == 0 by {
            assert(self.lateral_heat_rate[i] == 0);
            if i > 0 {
                assert(self.face_heat_rate(i - 1) == 0);
            }
            if i < self.len() - 1 {
                assert(self.face_heat_rate(i) == 0);
            }
        }
    }

    /// A lateral link to temperatures that the nodes already have registers
    /// no heat, whatever the conductance.
    pub proof fn lemma_link_to_own_temperatures_registers_nothing(
        self,
        conductance: ThermalConductance,
        temperatures: Seq<ThermodynamicTemperature>,
    )
        requires
            self.wf(),
            temperatures.len() == self.len(),
            forall|i: int| 0 <= i < self.len() ==> #[trigger] temperatures[i]
                == self.temperature[i],
        ensures
            self.with_lateral_temperatures(conductance, temperatures) matches Ok(after)
                && after.lateral_heat_rate == self.lateral_heat_rate && after == self,
    {
        assert forall|i: int| 0 <= i < self.len() implies self.lateral_heat_rate[i] + conductance
            * (temperatures[i] - self.temperature[i]) == #[trigger] self.lateral_heat_rate[i] by {
            assert(temperatures[i] == self.temperature[i]);
            assert(conductance * (temperatures[i] - self.temperature[i]) == 0) by (nonlinear_arith)
                requires
                    temperatures[i] - self.temperature[i] == 0,
            ;
        }
        let after = self.with_lateral_temperatures(conductance, temperatures)->Ok_0;
        assert(after.lateral_heat_rate =~= self.lateral_heat_rate);
    }

    /// The chain with both of its ends linked to the flow through it: the
    /// flow enters at the upstream end with the specific enthalpy
    /// `inlet_enthalpy` and leaves at the downstream end with that of the
    /// node there.
    pub open spec fn linked_to_flow(self, inlet_enthalpy: i64) -> ColumnModel {
        if self.mass_flowrate >= 0 {
            ColumnModel {
                back_heat_rate: (self.mass_flowrate * inlet_enthalpy) as i128,
                front_heat_rate: (-(self.mass_flowrate * self.specific_enthalpy(self.len() - 1)))
                    as i128,
                ..self
            }
        } else {
            ColumnModel {
                front_heat_rate: (-(self.mass_flowrate * inlet_enthalpy)) as i128,
                back_heat_rate: (self.mass_flowrate * self.specific_enthalpy(0)) as i128,
                ..self
            }
        }
    }

    /// The chain after `steps` steps of `timestep`, linked to the flow
    /// through it before each.
    pub open spec fn after_steps_in_flow(
        self,
        inlet_enthalpy: i64,
        timestep: Time,
        steps: nat,
    ) -> Result<ColumnModel, TuasLibError>
        decreases steps,
    {
        if steps == 0 {
            Ok(self)
        } else {
            match self.linked_to_flow(inlet_enthalpy).advanced(timestep) {
                Ok(after) => after.after_steps_in_flow(
                    inlet_enthalpy,
                    timestep,
                    (steps - 1) as nat,
                ),
                Err(e) => Err(e),
            }
        }
    }

    /// Whether every node holds the enthalpy that its mass has at the
    /// specific enthalpy `specific_enthalpy`.
    pub open spec fn holds_everywhere(self, specific_enthalpy: i64) -> bool {
        forall|i: int|
            0 <= i < self.len() ==> #[trigger] self.enthalpy[i] == self.node_mass
                * specific_enthalpy
    }

    /// The state of the inlet is a fixed point of the flow. A chain whose
    /// nodes all hold the specific enthalpy with which the flow enters, and
    /// which has no other link, stays as it is: whichever way the flow
    /// goes, whatever the time step and however many steps are made, every
    /// step succeeds, and the outlet stays at the temperature of the inlet.
    pub proof fn lemma_inlet_state_is_a_fixed_point(
        self,
        inlet_enthalpy: i64,
        timestep: Time,
        steps: nat,
    )
        requires
            self.wf(),
            self.unlinked(),
            self.holds_everywhere(inlet_enthalpy),
        ensures
            self.after_steps_in_flow(inlet_enthalpy, timestep, steps) == Ok::<
                ColumnModel,
                TuasLibError,
            >(self),
        decreases steps,
    {
        if steps > 0 {
            let linked = self.linked_to_flow(inlet_enthalpy);
            let m = self.mass_flowrate as int;
            let h = inlet_enthalpy as int;
            assert forall|i: int| 0 <= i < self.len() implies #[trigger] self.specific_enthalpy(i)
                == h && self.temperature[i] == self.temperature[0] by {
                assert(self.enthalpy[i] == self.node_mass * inlet_enthalpy);
                assert(self.enthalpy[0] == self.node_mass * inlet_enthalpy);
                vstd::arithmetic::div_mod::lemma_div_multiples_vanish(h, self.node_mass as int);
            }
            assert(-0x4000_0000_0000_0000_0000_0000_0000_0000 <= m * h
                <= 0x4000_0000_0000_0000_0000_0000_0000_0000) by (nonlinear_arith)
                requires
                    -0x8000_0000_0000_0000 <= m <= 0x7fff_ffff_ffff_ffff,
                    -0x8000_0000_0000_0000 <= h <= 0x7fff_ffff_ffff_ffff,
            ;
            assert(self.specific_enthalpy(0) == h);
            assert(self.specific_enthalpy(self.len() - 1) == h);
            assert(linked.wf());
            assert forall|i: int| 0 <= i < linked.len() - 1 implies #[trigger] linked.face_heat_rate(
                i,
            ) == m * h by {
                assert(self.specific_enthalpy(i) == h);
                assert(self.specific_enthalpy(i + 1) == h);
                assert(self.temperature[i] == self.temperature[0]);
                assert(self.temperature[i + 1] == self.temperature[0]);
                assert(self.axial_conductance * (self.temperature[i] - self.temperature[i + 1])
                    == 0) by (nonlinear_arith)
                    requires
                        self.temperature[i] - self.temperature[i + 1] == 0,
                ;
            }
            assert forall|i: int| 0 <= i < linked.len() implies #[trigger] linked.net_heat_rate(i)
                == 0 by {
                assert(linked.lateral_heat_rate[i] == 0);
                if i > 0 {
                    assert(linked.face_heat_rate(i - 1) == m * h);
                }
                if i < linked.len() - 1 {
                    assert(linked.face_heat_rate(i) == m * h);
                }
            }
            linked.lemma_step_without_heat_changes_nothing(timestep);
            let after = linked.advanced(timestep)->Ok_0;
            assert(after.lateral_heat_rate =~= self.lateral_heat_rate);
            assert(after == self);
            self.lemma_inlet_state_is_a_fixed_point(inlet_enthalpy, timestep, (steps - 1) as nat);
        }
    }

    /// A lateral link that hands out no power registers nothing, whatever
    /// the shares.
    pub proof fn lemma_no_power_registers_nothing(self, fractions: Seq<Ratio>)
        requires
            self.wf(),
            fractions.len() == self.len(),
            RATIO_ONE - self.len() <= sum_of(fractions) <= RATIO_ONE + self.len(),
        ensures
            self.with_lateral_power(0, fractions) == Ok::<ColumnModel, TuasLibError>(self),
    {
        assert forall|i: int| 0 <= i < self.len() implies #[trigger] self.power_share_fits(
            0,
            fractions,
            i,
        ) && power_share(0, fractions, i) == 0 by {
            assert(0 * sum_of(fractions.take(i + 1)) == 0);
            assert(0 * sum_of(fractions.take(i)) == 0);
        }
        let after = self.with_lateral_power(0, fractions)->Ok_0;
        assert(after.lateral_heat_rate =~= self.lateral_heat_rate);
    }

    /// One step of a node that receives nothing but a power: a single node
    /// with no other link than a lateral heat rate `power` gains `timestep`
    /// times `power` of enthalpy.
    pub proof fn lemma_heated_node_gains_power_times_time(self, timestep: Time)
        requires
            self.wf(),
            self.len() == 1,
            self.front_heat_rate == 0,
            self.back_heat_rate == 0,
            self.advanced(timestep) is Ok,
        ensures
            self.advanced(timestep)->Ok_0.enthalpy[0] == self.enthalpy[0] + timestep
                * self.lateral_heat_rate[0],
    {
        self.lemma_enthalpy_after_fits(timestep, 0);
    }

    /// What a lateral link hands the nodes below node `k` of a power is what
    /// the first `k` shares take together.
    pub proof fn lemma_power_link_adds(self, total_power: Power, fractions: Seq<Ratio>, k: int)
        requires
            self.lateral_heat_rate.len() == self.len(),
            self.with_lateral_power(total_power, fractions) is Ok,
            0 <= k <= self.len(),
        ensures
            total(self.with_lateral_power(total_power, fractions)->Ok_0.lateral_heat_rate.take(k))
                == total(self.lateral_heat_rate.take(k)) + cumulative_power(
                total_power,
                fractions,
                k,
            ),
        decreases k,
    {
        let after = self.with_lateral_power(total_power, fractions)->Ok_0.lateral_heat_rate;
        if k == 0 {
            assert(after.take(0).len() == 0);
            assert(self.lateral_heat_rate.take(0).len() == 0);
            assert(fractions.take(0).len() == 0);
            assert(total_power * 0 == 0) by (nonlinear_arith);
        } else {
            self.lemma_power_link_adds(total_power, fractions, k - 1);
            assert(after.take(k).drop_last() == after.take(k - 1));
            assert(self.lateral_heat_rate.take(k).drop_last() == self.lateral_heat_rate.take(
                k - 1,
            ));
            assert(self.power_share_fits(total_power, fractions, k - 1));
        }
    }

    /// Shares that sum to one hand out the whole power: the heat rates
    /// registered at the nodes grow by `total_power` in all, nothing lost
    /// in rounding.
    pub proof fn lemma_whole_power_is_handed_out(self, total_power: Power, fractions: Seq<Ratio>)
        requires
            self.wf(),
            self.with_lateral_power(total_power, fractions) is Ok,
            sum_of(fractions) == RATIO_ONE,
        ensures
            total(self.with_lateral_power(total_power, fractions)->Ok_0.lateral_heat_rate)
                == total(self.lateral_heat_rate) + total_power,
    {
        let n = self.len();
        let after = self.with_lateral_power(total_power, fractions)->Ok_0.lateral_heat_rate;
        self.lemma_power_link_adds(total_power, fractions, n);
        assert(after.take(n) == after);
        assert(self.lateral_heat_rate.take(n) == self.lateral_heat_rate);
        assert(fractions.take(n) == fractions);
        let whole = if total_power >= 0 {
            total_power as int
        } else {
            -total_power
        };
        vstd::arithmetic::div_mod::lemma_div_multiples_vanish(whole, RATIO_ONE as int);
        assert(total_power * (RATIO_ONE as int) == (RATIO_ONE as int) * total_power)
            by (nonlinear_arith);
        assert(-(total_power * (RATIO_ONE as int)) == (RATIO_ONE as int) * (-total_power))
            by (nonlinear_arith);
    }

    /// Steady-state heat balance: where a step of a time step other than zero
    /// leaves the enthalpy of every node as it was, as much heat leaves the
    /// chain as enters it.
    pub proof fn lemma_steady_state_heat_balance(self, timestep: Time)
        requires
            self.wf(),
            timestep != 0,
            self.advanced(timestep) is Ok,
            self.advanced(timestep)->Ok_0.enthalpy == self.enthalpy,
        ensures
            self.heat_rate_from_outside() == 0,
    {
        self.lemma_step_conserves_energy(timestep);
        let rate = self.heat_rate_from_outside();
        assert(rate == 0) by (nonlinear_arith)
            requires
                timestep * rate == 0,
                timestep != 0,
        ;
    }

    /// Steady-state heat balance of a heated flow: where the mass flow
    /// `mass_flowrate` enters at the back with the specific enthalpy
    /// `inlet_enthalpy` and leaves at the front with that of the last node,
    /// where the lateral links hand the chain the power `power` in all, and
    /// where a step leaves the enthalpy of every node as it was, the flow
    /// carries the power away: `m (h_out - h_in) = P`.
    pub proof fn lemma_steady_flow_carries_power(
        self,
        timestep: Time,
        mass_flowrate: int,
        inlet_enthalpy: int,
        power: int,
    )
        requires
            self.wf(),
            timestep != 0,
            self.advanced(timestep) is Ok,
            self.advanced(timestep)->Ok_0.enthalpy == self.enthalpy,
            self.back_heat_rate == mass_flowrate * inlet_enthalpy,
            self.front_heat_rate == -(mass_flowrate * self.specific_enthalpy(self.len() - 1)),
            total(self.lateral_heat_rate) == power,
        ensures
            mass_flowrate * (self.specific_enthalpy(self.len() - 1) - inlet_enthalpy) == power,
    {
        self.lemma_steady_state_heat_balance(timestep);
        let outlet = self.specific_enthalpy(self.len() - 1);
        assert(mass_flowrate * (outlet - inlet_enthalpy) == mass_flowrate * outlet - mass_flowrate
            * inlet_enthalpy) by (nonlinear_arith);
    }

    /// The outlet temperature of a heated flow in steady state. Under the
    /// conditions of `lemma_steady_flow_carries_power`, with the flow going
    /// from the back to the front, the outlet is at the temperature at
    /// which the material has the specific enthalpy of the inlet and `P / m`
    /// more: for a material of the constant specific heat capacity `cp`,
    /// that is `T_in + P / (m cp)`, as exactly as its table of enthalpies
    /// resolves it.
    pub proof fn lemma_steady_outlet_temperature(
        self,
        timestep: Time,
        mass_flowrate: int,
        inlet_enthalpy: int,
        power: int,
    )
        requires
            self.wf(),
            timestep != 0,
            mass_flowrate > 0,
            self.advanced(timestep) is Ok,
            self.advanced(timestep)->Ok_0.enthalpy == self.enthalpy,
            self.back_heat_rate == mass_flowrate * inlet_enthalpy,
            self.front_heat_rate == -(mass_flowrate * self.specific_enthalpy(self.len() - 1)),
            total(self.lateral_heat_rate) == power,
        ensures
            self.material.temperature_at(inlet_enthalpy + power / mass_flowrate) == Ok::<
                i64,
                TuasLibError,
            >(self.front_temperature()),
    {
        self.lemma_steady_flow_carries_power(timestep, mass_flowrate, inlet_enthalpy, power);
        let outlet = self.specific_enthalpy(self.len() - 1);
        vstd::arithmetic::div_mod::lemma_div_multiples_vanish(
            outlet - inlet_enthalpy,
            mass_flowrate,
        );
        assert(self.material.temperature_at(self.enthalpy[self.len() - 1] as int
            / self.node_mass as int) == Ok::<i64, TuasLibError>(self.temperature[self.len() - 1]));
    }

    /// The heat rate that a lateral link of conductance `conductance` to the
    /// temperatures `temperatures` hands the nodes below node `k`, in all.
    pub open spec fn lateral_link_rate_below(
        self,
        conductance: ThermalConductance,
        temperatures: Seq<ThermodynamicTemperature>,
        k: int,
    ) -> int
        decreases k,
    {
        if k <= 0 {
            0
        } else {
            self.lateral_link_rate_below(conductance, temperatures, k - 1) + conductance * (
            temperatures[k - 1] - self.temperature[k - 1])
        }
    }

    /// A lateral link adds to the heat rates registered at the nodes what it
    /// hands them.
    pub proof fn lemma_lateral_link_adds(
        self,
        conductance: ThermalConductance,
        temperatures: Seq<ThermodynamicTemperature>,
        k: int,
    )
        requires
            self.lateral_heat_rate.len() == self.len(),
            self.with_lateral_temperatures(conductance, temperatures) is Ok,
            0 <= k <= self.len(),
        ensures
            total(
                self.with_lateral_temperatures(conductance, temperatures)->Ok_0.lateral_heat_rate.take(
                    k,
                ),
            ) == total(self.lateral_heat_rate.take(k)) + self.lateral_link_rate_below(
                conductance,
                temperatures,
                k,
            ),
        decreases k,
    {
        let after = self.with_lateral_temperatures(conductance, temperatures)->Ok_0.lateral_heat_rate;
        if k == 0 {
            assert(after.take(0).len() == 0);
            assert(self.lateral_heat_rate.take(0).len() == 0);
        } else {
            self.lemma_lateral_link_adds(conductance, temperatures, k - 1);
            assert(after.take(k).drop_last() == after.take(k - 1));
            assert(self.lateral_heat_rate.take(k).drop_last() == self.lateral_heat_rate.take(
                k - 1,
            ));
            assert(fits_i128(
                self.lateral_heat_rate[k - 1] + conductance * (temperatures[k - 1]
                    - self.temperature[k - 1]),
            ));
        }
    }

    /// What two chains hand each other through the same conductance sums to
    /// zero, node by node.
    pub proof fn lemma_mutual_rates_cancel(
        self,
        other: ColumnModel,
        conductance: ThermalConductance,
        k: int,
    )
        requires
            0 <= k,
        ensures
            self.lateral_link_rate_below(conductance, other.temperature, k)
                + other.lateral_link_rate_below(conductance, self.temperature, k) == 0,
        decreases k,
    {
        if k > 0 {
            self.lemma_mutual_rates_cancel(other, conductance, k - 1);
            assert(conductance * (other.temperature[k - 1] - self.temperature[k - 1]) + conductance
                * (self.temperature[k - 1] - other.temperature[k - 1]) == 0) by (nonlinear_arith);
        }
    }

    /// Energy conservation of lateral coupling: where two chains of as many
    /// nodes are each linked to the temperatures of the other through the
    /// same conductance, what the nodes of one gain the nodes of the other
    /// lose.
    pub proof fn lemma_mutual_lateral_links_balance(
        self,
        other: ColumnModel,
        conductance: ThermalConductance,
    )
        requires
            self.wf(),
            other.wf(),
            self.len() == other.len(),
            self.with_lateral_temperatures(conductance, other.temperature) is Ok,
            other.with_lateral_temperatures(conductance, self.temperature) is Ok,
        ensures
            total(
                self.with_lateral_temperatures(conductance, other.temperature)->Ok_0.lateral_heat_rate,
            ) - total(self.lateral_heat_rate) + total(
                other.with_lateral_temperatures(conductance, self.temperature)->Ok_0.lateral_heat_rate,
            ) - total(other.lateral_heat_rate) == 0,
    {
        let n = self.len();
        let own = self.with_lateral_temperatures(conductance, other.temperature)->Ok_0;
        let neighbour = other.with_lateral_temperatures(conductance, self.temperature)->Ok_0;
        self.lemma_lateral_link_adds(conductance, other.temperature, n);
        other.lemma_lateral_link_adds(conductance, self.temperature, n);
        self.lemma_mutual_rates_cancel(other, conductance, n);
        assert(own.lateral_heat_rate.take(n) == own.lateral_heat_rate);
        assert(neighbour.lateral_heat_rate.take(n) == neighbour.lateral_heat_rate);
        assert(self.lateral_heat_rate.take(n) == self.lateral_heat_rate);
        assert(other.lateral_heat_rate.take(n) == other.lateral_heat_rate);
    }
}

} // verus!
