//! The progression store: the score earned in combat, and the purchasable
//! weapons and abilities it buys.
//!
//! Pressing a weapon's key selects it if it is already owned, buys and
//! selects it if the score covers its cost, and otherwise changes nothing.
//! Weapons are mutually exclusive: exactly one is active. Pressing an
//! ability's key buys and enables it the first time, and from then on
//! toggles it; abilities are independent of one another.

use vstd::prelude::*;

verus! {

/// Outcome of pressing a weapon's key.
#[derive(Clone, Copy, Debug, PartialEq, Eq, Structural)]
pub enum WeaponPress {
    /// The weapon was bought, its cost deducted, and it became the active
    /// weapon.
    Purchased,
    /// The weapon was already owned and became the active weapon.
    Selected,
    /// The score did not cover the cost; nothing changed.
    InsufficientFunds,
}

/// Outcome of pressing an ability's key.
#[derive(Clone, Copy, Debug, PartialEq, Eq, Structural)]
pub enum AbilityPress {
    /// The ability was bought, its cost deducted, and it switched on.
    Purchased,
    /// The ability was already owned; it toggled to the carried state.
    Toggled(bool),
    /// The score did not cover the cost; nothing changed.
    InsufficientFunds,
}

/// Ghost image of [`Weapons`].
#[verifier::ext_equal]
pub struct WeaponsModel {
    pub purchased: Seq<bool>,
    pub active: int,
    pub costs: Seq<int>,
}

impl WeaponsModel {
    /// The rack holds one entry per weapon, the active selection names an
    /// owned weapon, and every cost fits the score word.
    pub open spec fn wf(self) -> bool {
        &&& self.purchased.len() == self.costs.len()
        &&& 0 <= self.active < self.purchased.len()
        &&& self.purchased[self.active]
        &&& forall|i: int| 0 <= i < self.costs.len() ==> 0 <= #[trigger] self.costs[i]
            <= u32::MAX as int
    }

    /// The starting rack: the free pistol owned and selected, the shotgun
    /// and the minigun locked behind their costs.
    pub open spec fn initial() -> WeaponsModel {
        WeaponsModel {
            purchased: seq![true, false, false],
            active: 0,
            costs: seq![0, 100, 200],
        }
    }
}

/// Ghost image of [`Abilities`].
#[verifier::ext_equal]
pub struct AbilitiesModel {
    pub purchased: Seq<bool>,
    pub active: Seq<bool>,
    pub costs: Seq<int>,
}

impl AbilitiesModel {
    /// Ownership and the on/off switches line up, every ability has a cost,
    /// and an ability that is switched on is owned.
    pub open spec fn wf(self) -> bool {
        &&& self.purchased.len() == self.active.len()
        &&& self.purchased.len() <= self.costs.len()
        &&& forall|i: int| 0 <= i < self.costs.len() ==> 0 <= #[trigger] self.costs[i]
            <= u32::MAX as int
        &&& forall|i: int| 0 <= i < self.active.len() && #[trigger] self.active[i]
            ==> self.purchased[i]
    }

    /// The starting board: no ability owned; the cost ladder is longer than
    /// the board, leaving room to grow.
    pub open spec fn initial() -> AbilitiesModel {
        AbilitiesModel {
            purchased: seq![false, false],
            active: seq![false, false],
            costs: seq![50, 100, 150, 200],
        }
    }
}

/// Ghost image of a [`ProgressionStore`].
#[verifier::ext_equal]
pub struct ProgressionModel {
    pub score: int,
    pub weapons: WeaponsModel,
    pub abilities: AbilitiesModel,
}

impl ProgressionModel {
    pub open spec fn wf(self) -> bool {
        &&& 0 <= self.score <= u32::MAX as int
        &&& self.weapons.wf()
        &&& self.abilities.wf()
    }

    pub open spec fn initial() -> ProgressionModel {
        ProgressionModel {
            score: 0,
            weapons: WeaponsModel::initial(),
            abilities: AbilitiesModel::initial(),
        }
    }
}

/// What pressing weapon key `i` does to the store: select an owned weapon,
/// buy an affordable one (deducting its cost and selecting it), or — when
/// the score falls short of the cost — nothing.
pub open spec fn press_weapon_model(p: ProgressionModel, i: int) -> (ProgressionModel, WeaponPress) {
    if p.weapons.purchased[i] {
        (
            ProgressionModel { weapons: WeaponsModel { active: i, ..p.weapons }, ..p },
            WeaponPress::Selected,
        )
    } else if p.score >= p.weapons.costs[i] {
        (
            ProgressionModel {
                score: p.score - p.weapons.costs[i],
                weapons: WeaponsModel {
                    purchased: p.weapons.purchased.update(i, true),
                    active: i,
                    ..p.weapons
                },
                ..p
            },
            WeaponPress::Purchased,
        )
    } else {
        (p, WeaponPress::InsufficientFunds)
    }
}

/// What pressing ability key `i` does to the store: toggle an owned ability,
/// buy an affordable one (deducting its cost and switching it on), or — when
/// the score falls short of the cost — nothing.
pub open spec fn press_ability_model(p: ProgressionModel, i: int) -> (
    ProgressionModel,
    AbilityPress,
) {
    if p.abilities.purchased[i] {
        (
            ProgressionModel {
                abilities: AbilitiesModel {
                    active: p.abilities.active.update(i, !p.abilities.active[i]),
                    ..p.abilities
                },
                ..p
            },
            AbilityPress::Toggled(!p.abilities.active[i]),
        )
    } else if p.score >= p.abilities.costs[i] {
        (
            ProgressionModel {
                score: p.score - p.abilities.costs[i],
                abilities: AbilitiesModel {
                    purchased: p.abilities.purchased.update(i, true),
                    active: p.abilities.active.update(i, true),
                    ..p.abilities
                },
                ..p
            },
            AbilityPress::Purchased,
        )
    } else {
        (p, AbilityPress::InsufficientFunds)
    }
}

/// The weapon rack: which weapons are owned, which is active, and what each
/// costs. Index 0 is the pistol, 1 the shotgun, 2 the minigun.
#[derive(Clone, Debug, PartialEq)]
pub struct Weapons {
    pub purchased: Vec<bool>,
    pub active: usize,
    pub costs: Vec<u32>,
}

impl View for Weapons {
    type V = WeaponsModel;

    open spec fn view(&self) -> WeaponsModel {
        WeaponsModel {
            purchased: self.purchased@,
            active: self.active as int,
            costs: self.costs@.map_values(|c: u32| c as int),
        }
    }
}

/// The ability board: which abilities are owned and which are switched on,
/// and what each costs.
#[derive(Clone, Debug, PartialEq)]
pub struct Abilities {
    pub purchased: Vec<bool>,
    pub active: Vec<bool>,
    pub costs: Vec<u32>,
}

impl View for Abilities {
    type V = AbilitiesModel;

    open spec fn view(&self) -> AbilitiesModel {
        AbilitiesModel {
            purchased: self.purchased@,
            active: self.active@,
            costs: self.costs@.map_values(|c: u32| c as int),
        }
    }
}

/// The score and everything it unlocks.
#[derive(Clone, Debug, PartialEq)]
pub struct ProgressionStore {
    pub score: u32,
    pub weapons: Weapons,
    pub abilities: Abilities,
}

impl View for ProgressionStore {
    type V = ProgressionModel;

    open spec fn view(&self) -> ProgressionModel {
        ProgressionModel {
            score: self.score as int,
            weapons: self.weapons@,
            abilities: self.abilities@,
        }
    }
}

impl ProgressionStore {
    /// A fresh store: no score, only the free pistol owned and selected,
    /// no ability owned.
    pub fn new() -> (p: ProgressionStore)
        ensures
            p@ == ProgressionModel::initial(),
            p@.wf(),
    {
        let mut w_purchased: Vec<bool> = Vec::new();
        w_purchased.push(true);
        w_purchased.push(false);
        w_purchased.push(false);
        let mut w_costs: Vec<u32> = Vec::new();
        w_costs.push(0);
        w_costs.push(100);
        w_costs.push(200);
        let mut a_purchased: Vec<bool> = Vec::new();
        a_purchased.push(false);
        a_purchased.push(false);
        let mut a_active: Vec<bool> = Vec::new();
        a_active.push(false);
        a_active.push(false);
        let mut a_costs: Vec<u32> = Vec::new();
        a_costs.push(50);
        a_costs.push(100);
        a_costs.push(150);
        a_costs.push(200);
        let p = ProgressionStore {
            score: 0,
            weapons: Weapons { purchased: w_purchased, active: 0, costs: w_costs },
            abilities: Abilities { purchased: a_purchased, active: a_active, costs: a_costs },
        };
        assert(p@.weapons.purchased =~= WeaponsModel::initial().purchased);
        assert(p@.weapons.costs =~= WeaponsModel::initial().costs);
        assert(p@.abilities.purchased =~= AbilitiesModel::initial().purchased);
        assert(p@.abilities.active =~= AbilitiesModel::initial().active);
        assert(p@.abilities.costs =~= AbilitiesModel::initial().costs);
        assert(p@ =~= ProgressionModel::initial());
        p
    }

    /// Presses weapon key `i`: selects the weapon if owned, buys and selects
    /// it if the score covers its cost, otherwise reports the shortfall and
    /// changes nothing.
    pub fn press_weapon(&mut self, i: usize) -> (r: WeaponPress)
        requires
            old(self)@.wf(),
            i < old(self)@.weapons.purchased.len(),
        ensures
            final(self)@.wf(),
            (final(self)@, r) == press_weapon_model(old(self)@, i as int),
    {
        if self.weapons.purchased[i] {
            self.weapons.active = i;
            WeaponPress::Selected
        } else if self.score >= self.weapons.costs[i] {
            assert(self@.weapons.costs[i as int] == self.weapons.costs@[i as int] as int);
            self.score = self.score - self.weapons.costs[i];
            self.weapons.purchased.set(i, true);
            self.weapons.active = i;
            WeaponPress::Purchased
        } else {
            assert(self@.weapons.costs[i as int] == self.weapons.costs@[i as int] as int);
            WeaponPress::InsufficientFunds
        }
    }

    /// Presses ability key `i`: toggles the ability if owned, buys and
    /// switches it on if the score covers its cost, otherwise reports the
    /// shortfall and changes nothing.
    pub fn press_ability(&mut self, i: usize) -> (r: AbilityPress)
        requires
            old(self)@.wf(),
            i < old(self)@.abilities.purchased.len(),
        ensures
            final(self)@.wf(),
            (final(self)@, r) == press_ability_model(old(self)@, i as int),
    {
        if self.abilities.purchased[i] {
            let now_on = !self.abilities.active[i];
            self.abilities.active.set(i, now_on);
            AbilityPress::Toggled(now_on)
        } else if self.score >= self.abilities.costs[i] {
            assert(self@.abilities.costs[i as int] == self.abilities.costs@[i as int] as int);
            self.score = self.score - self.abilities.costs[i];
            self.abilities.purchased.set(i, true);
            self.abilities.active.set(i, true);
            AbilityPress::Purchased
        } else {
            assert(self@.abilities.costs[i as int] == self.abilities.costs@[i as int] as int);
            AbilityPress::InsufficientFunds
        }
    }
}

/// Law of the purchase gate: a press never creates score, never destroys an
/// owned item, and fails exactly when the item is unowned and the score
/// falls short of its cost — in that case the store is left untouched.
pub proof fn lemma_press_weapon_gate(p: ProgressionModel, i: int)
    requires
        p.wf(),
        0 <= i < p.weapons.purchased.len(),
    ensures
        press_weapon_model(p, i).1 == WeaponPress::InsufficientFunds <==> (!p.weapons.purchased[i]
            && p.score < p.weapons.costs[i]),
        press_weapon_model(p, i).1 == WeaponPress::InsufficientFunds ==> press_weapon_model(p, i).0
            == p,
        press_weapon_model(p, i).0.score <= p.score,
        press_weapon_model(p, i).0.weapons.purchased[i] || press_weapon_model(p, i).1
            == WeaponPress::InsufficientFunds,
        forall|j: int| 0 <= j < p.weapons.purchased.len() && #[trigger] p.weapons.purchased[j]
            ==> press_weapon_model(p, i).0.weapons.purchased[j],
{
}

/// The same purchase gate for abilities.
pub proof fn lemma_press_ability_gate(p: ProgressionModel, i: int)
    requires
        p.wf(),
        0 <= i < p.abilities.purchased.len(),
    ensures
        press_ability_model(p, i).1 == AbilityPress::InsufficientFunds <==> (
        !p.abilities.purchased[i] && p.score < p.abilities.costs[i]),
        press_ability_model(p, i).1 == AbilityPress::InsufficientFunds ==> press_ability_model(
            p,
            i,
        ).0 == p,
        press_ability_model(p, i).0.score <= p.score,
        press_ability_model(p, i).0.abilities.purchased[i] || press_ability_model(p, i).1
            == AbilityPress::InsufficientFunds,
{
}

} // verus!
