//! The metabolic model: energy, satiety and diet of one creature.
//!
//! Energy, satiety, rates and sizes are unsigned fixed-point numbers (see
//! `fixed`); durations are in millionths of a second. Thresholds are compared
//! exactly, as ratios of integers.

use crate::fixed::SCALE;
use vstd::prelude::*;

verus! {

/// What a creature feeds on.
#[derive(Debug, Clone, Copy, PartialEq, Eq, Hash, Structural)]
pub enum DietType {
    /// Eats plants, never other creatures.
    Herbivore,
    /// Eats other creatures.
    Carnivore,
    /// Eats both.
    Omnivore,
}

/// The internal condition and the ecological role of a creature.
///
/// A value is well formed (`wf`) when energy and satiety do not exceed their
/// maxima. `new` establishes this and every method preserves it.
#[derive(Debug, Clone)]
pub struct CreatureAttributes {
    pub energy: u64,
    pub max_energy: u64,
    /// Energy gained per second while resting.
    pub energy_recovery_rate: u64,
    pub satiety: u64,
    pub max_satiety: u64,
    /// Satiety lost per second; energy drains at half this rate.
    pub metabolic_rate: u64,
    pub diet_type: DietType,
    pub size: u64,
    /// What this creature can eat.
    pub prey_tags: Vec<String>,
    /// What this creature is, to those that might eat it.
    pub self_tags: Vec<String>,
}

/// One change that a creature's attributes can undergo.
pub enum AttributeChange {
    /// `dt` of time going by, at rest or not.
    Passive { dt: u64, is_resting: bool },
    /// Energy spent on movement.
    Consume { amount: u64 },
    /// Energy taken in.
    GainEnergy { amount: u64 },
    /// `dt` of recovery at the creature's own rate.
    Recover { dt: u64 },
    /// Food taken in.
    GainSatiety { amount: u64 },
}

/// The amount that accrues in `dt` at `rate` per second, rounded down.
pub open spec fn accrued(rate: int, dt: int) -> int {
    (rate * dt) / (SCALE as int)
}

/// `a - b`, or zero where that would be negative.
pub open spec fn minus_floor_zero(a: int, b: int) -> int {
    if b >= a {
        0
    } else {
        a - b
    }
}

/// `a + b`, or `cap` where that would be more.
pub open spec fn plus_capped(a: int, b: int, cap: int) -> int {
    if a + b >= cap {
        cap
    } else {
        a + b
    }
}

/// Whether some string occurs in both lists.
pub open spec fn shares_tag(a: Seq<Seq<char>>, b: Seq<Seq<char>>) -> bool {
    exists|i: int, j: int| 0 <= i < a.len() && 0 <= j < b.len() && a[i] == b[j]
}

impl CreatureAttributes {
    /// Energy and satiety are within their maxima.
    pub open spec fn wf(self) -> bool {
        self.energy <= self.max_energy && self.satiety <= self.max_satiety
    }

    /// Energy left when `dt` has gone by without rest.
    pub open spec fn drained_energy(self, dt: u64) -> int {
        minus_floor_zero(self.energy as int, accrued(self.metabolic_rate as int, dt as int) / 2)
    }

    /// The attributes after `dt` has gone by.
    pub open spec fn after_passive_update(self, dt: u64, is_resting: bool) -> CreatureAttributes {
        CreatureAttributes {
            satiety: minus_floor_zero(
                self.satiety as int,
                accrued(self.metabolic_rate as int, dt as int),
            ) as u64,
            energy: if is_resting {
                plus_capped(
                    self.drained_energy(dt),
                    accrued(self.energy_recovery_rate as int, dt as int),
                    self.max_energy as int,
                ) as u64
            } else {
                self.drained_energy(dt) as u64
            },
            ..self
        }
    }

    /// The attributes after `amount` of energy is spent.
    pub open spec fn after_consume_energy(self, amount: u64) -> CreatureAttributes {
        CreatureAttributes {
            energy: minus_floor_zero(self.energy as int, amount as int) as u64,
            ..self
        }
    }

    /// The attributes after `amount` of energy is taken in.
    pub open spec fn after_gain_energy(self, amount: u64) -> CreatureAttributes {
        CreatureAttributes {
            energy: plus_capped(self.energy as int, amount as int, self.max_energy as int) as u64,
            ..self
        }
    }

    /// The attributes after `dt` of recovery at the creature's own rate.
    pub open spec fn after_recovery(self, dt: u64) -> CreatureAttributes {
        CreatureAttributes {
            energy: plus_capped(
                self.energy as int,
                accrued(self.energy_recovery_rate as int, dt as int),
                self.max_energy as int,
            ) as u64,
            ..self
        }
    }

    /// The attributes after `amount` of food is taken in.
    pub open spec fn after_gain_satiety(self, amount: u64) -> CreatureAttributes {
        CreatureAttributes {
            satiety: plus_capped(
                self.satiety as int,
                amount as int,
                self.max_satiety as int,
            ) as u64,
            ..self
        }
    }

    /// The attributes after one change.
    pub open spec fn after(self, change: AttributeChange) -> CreatureAttributes {
        match change {
            AttributeChange::Passive { dt, is_resting } => self.after_passive_update(
                dt,
                is_resting,
            ),
            AttributeChange::Consume { amount } => self.after_consume_energy(amount),
            AttributeChange::GainEnergy { amount } => self.after_gain_energy(amount),
            AttributeChange::Recover { dt } => self.after_recovery(dt),
            AttributeChange::GainSatiety { amount } => self.after_gain_satiety(amount),
        }
    }

    /// The attributes after a sequence of changes, applied first to last.
    pub open spec fn after_all(self, changes: Seq<AttributeChange>) -> CreatureAttributes
        decreases changes.len(),
    {
        if changes.len() == 0 {
            self
        } else {
            self.after_all(changes.drop_last()).after(changes.last())
        }
    }

    /// Satiety is below half its maximum.
    pub open spec fn is_hungry_spec(self) -> bool {
        2 * self.satiety < self.max_satiety
    }

    /// Energy is below a fifth of its maximum.
    pub open spec fn is_tired_spec(self) -> bool {
        5 * self.energy < self.max_energy
    }

    /// Whether a creature with these attributes preys on `other`.
    pub open spec fn can_eat_spec(self, other: CreatureAttributes) -> bool {
        &&& self.diet_type != DietType::Herbivore
        &&& 2 * other.size <= 3 * self.size
        &&& shares_tag(self.prey_tags.deep_view(), other.self_tags.deep_view())
    }

    /// Attributes of a creature that starts with full energy and satiety.
    pub fn new(
        max_energy: u64,
        energy_recovery_rate: u64,
        max_satiety: u64,
        metabolic_rate: u64,
        diet_type: DietType,
        size: u64,
        prey_tags: Vec<String>,
        self_tags: Vec<String>,
    ) -> (r: CreatureAttributes)
        ensures
            r == (CreatureAttributes {
                energy: max_energy,
                max_energy,
                energy_recovery_rate,
                satiety: max_satiety,
                max_satiety,
                metabolic_rate,
                diet_type,
                size,
                prey_tags,
                self_tags,
            }),
            r.wf(),
    {
        CreatureAttributes {
            energy: max_energy,
            max_energy,
            energy_recovery_rate,
            satiety: max_satiety,
            max_satiety,
            metabolic_rate,
            diet_type,
            size,
            prey_tags,
            self_tags,
        }
    }

    /// Lets `dt` go by: satiety falls at the metabolic rate and energy at half
    /// of it, neither below zero; at rest, energy then rises at the recovery
    /// rate, up to its maximum.
    pub fn update_passive_stats(&mut self, dt: u64, is_resting: bool)
        ensures
            *final(self) == old(self).after_passive_update(dt, is_resting),
            old(self).wf() ==> final(self).wf(),
    {
        let burned = rate_times(self.metabolic_rate, dt);
        self.satiety = saturating_less(self.satiety, burned);
        self.energy = saturating_less(self.energy, burned / 2);
        if is_resting {
            let recovered = rate_times(self.energy_recovery_rate, dt);
            self.energy = capped_more(self.energy, recovered, self.max_energy);
        }
    }

    /// Spends `amount` of energy; energy does not fall below zero.
    pub fn consume_energy(&mut self, amount: u64)
        ensures
            *final(self) == old(self).after_consume_energy(amount),
            old(self).wf() ==> final(self).wf(),
    {
        self.energy = saturating_less(self.energy, amount as u128);
    }

    /// Takes in `amount` of energy; energy does not rise above its maximum.
    pub fn gain_energy(&mut self, amount: u64)
        ensures
            *final(self) == old(self).after_gain_energy(amount),
            old(self).wf() ==> final(self).wf(),
    {
        self.energy = capped_more(self.energy, amount as u128, self.max_energy);
    }

    /// Recovers energy for `dt` at the creature's own rate; energy does not
    /// rise above its maximum.
    pub fn recover_energy(&mut self, dt: u64)
        ensures
            *final(self) == old(self).after_recovery(dt),
            old(self).wf() ==> final(self).wf(),
    {
        let recovered = rate_times(self.energy_recovery_rate, dt);
        self.energy = capped_more(self.energy, recovered, self.max_energy);
    }

    /// Takes in `amount` of food; satiety does not rise above its maximum.
    pub fn gain_satiety(&mut self, amount: u64)
        ensures
            *final(self) == old(self).after_gain_satiety(amount),
            old(self).wf() ==> final(self).wf(),
    {
        self.satiety = capped_more(self.satiety, amount as u128, self.max_satiety);
    }

    pub fn is_hungry(&self) -> (r: bool)
        ensures
            r == self.is_hungry_spec(),
            r <==> 2 * self.satiety < self.max_satiety,
    {
        2 * (self.satiety as u128) < self.max_satiety as u128
    }

    pub fn is_tired(&self) -> (r: bool)
        ensures
            r == self.is_tired_spec(),
            r <==> 5 * self.energy < self.max_energy,
    {
        5 * (self.energy as u128) < self.max_energy as u128
    }

    /// Whether this creature preys on `other`: never for a herbivore;
    /// otherwise `other` must be no more than one and a half times as large
    /// and carry one of this creature's prey tags.
    pub fn can_eat(&self, other: &CreatureAttributes) -> (r: bool)
        ensures
            r == self.can_eat_spec(*other),
    {
        match self.diet_type {
            DietType::Herbivore => false,
            DietType::Carnivore | DietType::Omnivore => {
                if 2 * (other.size as u128) > 3 * (self.size as u128) {
                    return false;
                }
                any_tag_shared(&self.prey_tags, &other.self_tags)
            },
        }
    }

    /// Whether `potential_predator` preys on this creature.
    pub fn can_be_eaten_by(&self, potential_predator: &CreatureAttributes) -> (r: bool)
        ensures
            r == potential_predator.can_eat_spec(*self),
    {
        potential_predator.can_eat(self)
    }
}

/// The amount that accrues in `dt` at `rate` per second.
fn rate_times(rate: u64, dt: u64) -> (r: u128)
    ensures
        r == accrued(rate as int, dt as int),
{
    assert(0 <= rate * dt <= 0xffff_ffff_ffff_ffff * 0xffff_ffff_ffff_ffff) by (nonlinear_arith)
        requires
            0 <= rate <= 0xffff_ffff_ffff_ffff,
            0 <= dt <= 0xffff_ffff_ffff_ffff,
    ;
    (rate as u128) * (dt as u128) / (SCALE as u128)
}

fn saturating_less(a: u64, b: u128) -> (r: u64)
    ensures
        r == minus_floor_zero(a as int, b as int),
{
    if b >= a as u128 {
        0
    } else {
        a - (b as u64)
    }
}

fn capped_more(a: u64, b: u128, cap: u64) -> (r: u64)
    ensures
        r == plus_capped(a as int, b as int, cap as int),
{
    if a >= cap || b >= (cap - a) as u128 {
        cap
    } else {
        a + (b as u64)
    }
}

/// Whether `needle` occurs in `haystack`.
fn contains_tag(haystack: &Vec<String>, needle: &String) -> (r: bool)
    ensures
        r <==> exists|j: int| 0 <= j < haystack.len() && haystack[j]@ == needle@,
{
    let mut j: usize = 0;
    while j < haystack.len()
        invariant
            j <= haystack.len(),
            forall|k: int| 0 <= k < j ==> haystack[k]@ != needle@,
        decreases haystack.len() - j,
    {
        if haystack[j] == *needle {
            return true;
        }
        j += 1;
    }
    false
}

/// Whether some string occurs in both lists.
fn any_tag_shared(a: &Vec<String>, b: &Vec<String>) -> (r: bool)
    ensures
        r == shares_tag(a.deep_view(), b.deep_view()),
{
    let mut i: usize = 0;
    while i < a.len()
        invariant
            i <= a.len(),
            forall|k: int, j: int| 0 <= k < i && 0 <= j < b.len() ==> a[k]@ != b[j]@,
        decreases a.len() - i,
    {
        if contains_tag(b, &a[i]) {
            proof {
                let j = choose|j: int| 0 <= j < b.len() && b[j]@ == a[i as int]@;
                lemma_deep_view_index(a, i as int);
                lemma_deep_view_index(b, j);
                assert(a.deep_view()[i as int] == b.deep_view()[j]);
            }
            return true;
        }
        i += 1;
    }
    proof {
        assert forall|k: int, j: int|
            0 <= k < a.deep_view().len() && 0 <= j < b.deep_view().len() implies a.deep_view()[k]
            != b.deep_view()[j] by {
            lemma_deep_view_index(a, k);
            lemma_deep_view_index(b, j);
        }
    }
    false
}

/// The deep view of a list of strings holds the view of each string.
proof fn lemma_deep_view_index(v: &Vec<String>, i: int)
    requires
        0 <= i < v.len(),
    ensures
        v.deep_view().len() == v.len(),
        v.deep_view()[i] == v[i]@,
{
}

/// Whatever changes a creature's attributes undergo, in whatever order,
/// energy and satiety stay within zero and their maxima.
pub proof fn lemma_bounds_hold_after_any_changes(
    start: CreatureAttributes,
    changes: Seq<AttributeChange>,
)
    requires
        start.wf(),
    ensures
        start.after_all(changes).wf(),
        0 <= start.after_all(changes).energy <= start.after_all(changes).max_energy,
        0 <= start.after_all(changes).satiety <= start.after_all(changes).max_satiety,
        start.after_all(changes).max_energy == start.max_energy,
        start.after_all(changes).max_satiety == start.max_satiety,
    decreases changes.len(),
{
    if changes.len() > 0 {
        lemma_bounds_hold_after_any_changes(start, changes.drop_last());
    }
}

} // verus!
