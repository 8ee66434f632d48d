//! The table of weapons and the lookup by weapon id.

use vstd::prelude::*;
use crate::weapons::components::WeaponId;

verus! {

/// Data for a weapon type. Damage, speed, spread (radians) and radius are in
/// thousandths, the fire rate in thousandths of a shot per second, times in
/// milliseconds.
#[derive(Debug, Clone)]
pub struct WeaponData {
    pub id: WeaponId,
    pub name: String,
    pub damage: u32,
    /// Shots per second.
    pub fire_rate: u32,
    pub projectile_speed: u32,
    /// Half-width of the cone of fire.
    pub spread: u32,
    pub projectiles_per_shot: u32,
    /// `None` means infinite ammo.
    pub ammo_capacity: Option<u32>,
    pub reload_time: u32,
    pub projectile_lifetime: u32,
    /// Number of enemies a projectile can pass through.
    pub pierce_count: u32,
    pub homing: bool,
    /// Zero means no explosion.
    pub explosive_radius: u32,
}

/// The mathematical content of a [`WeaponData`].
pub struct WeaponDataView {
    pub id: WeaponId,
    pub name: Seq<char>,
    pub damage: u32,
    pub fire_rate: u32,
    pub projectile_speed: u32,
    pub spread: u32,
    pub projectiles_per_shot: u32,
    pub ammo_capacity: Option<u32>,
    pub reload_time: u32,
    pub projectile_lifetime: u32,
    pub pierce_count: u32,
    pub homing: bool,
    pub explosive_radius: u32,
}

impl View for WeaponData {
    type V = WeaponDataView;

    open spec fn view(&self) -> WeaponDataView {
        WeaponDataView {
            id: self.id,
            name: self.name@,
            damage: self.damage,
            fire_rate: self.fire_rate,
            projectile_speed: self.projectile_speed,
            spread: self.spread,
            projectiles_per_shot: self.projectiles_per_shot,
            ammo_capacity: self.ammo_capacity,
            reload_time: self.reload_time,
            projectile_lifetime: self.projectile_lifetime,
            pierce_count: self.pierce_count,
            homing: self.homing,
            explosive_radius: self.explosive_radius,
        }
    }
}

impl WeaponDataView {
    /// The pause between two shots in milliseconds: the inverse of the fire
    /// rate, and one second for a weapon without one.
    pub open spec fn fire_cooldown(self) -> int {
        if self.fire_rate > 0 {
            1_000_000int / (self.fire_rate as int)
        } else {
            1000int
        }
    }

    /// Whether projectiles of the weapon explode: the radius is not zero.
    pub open spec fn is_explosive(self) -> bool {
        self.explosive_radius > 0
    }
}

impl WeaponData {
    /// The pause between two shots, in milliseconds.
    pub fn fire_cooldown(&self) -> (r: u32)
        ensures
            r == self@.fire_cooldown(),
    {
        if self.fire_rate > 0 {
            1_000_000 / self.fire_rate
        } else {
            1000
        }
    }

    /// Whether projectiles of the weapon explode: the radius is not zero.
    pub fn is_explosive(&self) -> (r: bool)
        ensures
            r == self@.is_explosive(),
    {
        self.explosive_radius > 0
    }
}

/// The built-in data of each weapon.
pub open spec fn builtin_weapon(id: WeaponId) -> WeaponDataView {
    match id {
        WeaponId::Pistol => WeaponDataView {
            id,
            name: "Pistol"@,
            damage: 15_000,
            fire_rate: 5000,
            projectile_speed: 800_000,
            spread: 50,
            projectiles_per_shot: 1,
            ammo_capacity: None,
            reload_time: 0,
            projectile_lifetime: 2000,
            pierce_count: 0,
            homing: false,
            explosive_radius: 0,
        },
        WeaponId::PocketRocket => WeaponDataView {
            id,
            name: "Pocket Rocket"@,
            damage: 50_000,
            fire_rate: 2000,
            projectile_speed: 500_000,
            spread: 20,
            projectiles_per_shot: 1,
            ammo_capacity: Some(30),
            reload_time: 1500,
            projectile_lifetime: 3000,
            pierce_count: 0,
            homing: false,
            explosive_radius: 50_000,
        },
        WeaponId::Magnum => WeaponDataView {
            id,
            name: "Magnum"@,
            damage: 60_000,
            fire_rate: 2000,
            projectile_speed: 1_000_000,
            spread: 20,
            projectiles_per_shot: 1,
            ammo_capacity: Some(36),
            reload_time: 1000,
            projectile_lifetime: 2500,
            pierce_count: 1,
            homing: false,
            explosive_radius: 0,
        },
        WeaponId::Uzi => WeaponDataView {
            id,
            name: "Uzi"@,
            damage: 10_000,
            fire_rate: 15_000,
            projectile_speed: 700_000,
            spread: 150,
            projectiles_per_shot: 1,
            ammo_capacity: Some(200),
            reload_time: 1500,
            projectile_lifetime: 1500,
            pierce_count: 0,
            homing: false,
            explosive_radius: 0,
        },
        WeaponId::Smg => WeaponDataView {
            id,
            name: "SMG"@,
            damage: 12_000,
            fire_rate: 12_000,
            projectile_speed: 750_000,
            spread: 100,
            projectiles_per_shot: 1,
            ammo_capacity: Some(250),
            reload_time: 1500,
            projectile_lifetime: 1500,
            pierce_count: 0,
            homing: false,
            explosive_radius: 0,
        },
        WeaponId::DualSmg => WeaponDataView {
            id,
            name: "Dual SMG"@,
            damage: 10_000,
            fire_rate: 20_000,
            projectile_speed: 750_000,
            spread: 200,
            projectiles_per_shot: 2,
            ammo_capacity: Some(400),
            reload_time: 2000,
            projectile_lifetime: 1500,
            pierce_count: 0,
            homing: false,
            explosive_radius: 0,
        },
        WeaponId::AssaultRifle => WeaponDataView {
            id,
            name: "Assault Rifle"@,
            damage: 18_000,
            fire_rate: 10_000,
            projectile_speed: 900_000,
            spread: 80,
            projectiles_per_shot: 1,
            ammo_capacity: Some(300),
            reload_time: 1500,
            projectile_lifetime: 2000,
            pierce_count: 0,
            homing: false,
            explosive_radius: 0,
        },
        WeaponId::MachineGun => WeaponDataView {
            id,
            name: "Machine Gun"@,
            damage: 15_000,
            fire_rate: 14_000,
            projectile_speed: 850_000,
            spread: 120,
            projectiles_per_shot: 1,
            ammo_capacity: Some(500),
            reload_time: 2000,
            projectile_lifetime: 2000,
            pierce_count: 0,
            homing: false,
            explosive_radius: 0,
        },
        WeaponId::Minigun => WeaponDataView {
            id,
            name: "Minigun"@,
            damage: 12_000,
            fire_rate: 30_000,
            projectile_speed: 800_000,
            spread: 150,
            projectiles_per_shot: 1,
            ammo_capacity: Some(1000),
            reload_time: 3000,
            projectile_lifetime: 1500,
            pierce_count: 0,
            homing: false,
            explosive_radius: 0,
        },
        WeaponId::Shotgun => WeaponDataView {
            id,
            name: "Shotgun"@,
            damage: 8000,
            fire_rate: 2000,
            projectile_speed: 600_000,
            spread: 300,
            projectiles_per_shot: 8,
            ammo_capacity: Some(50),
            reload_time: 1500,
            projectile_lifetime: 800,
            pierce_count: 0,
            homing: false,
            explosive_radius: 0,
        },
        WeaponId::DoubleBarrel => WeaponDataView {
            id,
            name: "Double Barrel"@,
            damage: 10_000,
            fire_rate: 1500,
            projectile_speed: 600_000,
            spread: 350,
            projectiles_per_shot: 12,
            ammo_capacity: Some(40),
            reload_time: 2000,
            projectile_lifetime: 700,
            pierce_count: 0,
            homing: false,
            explosive_radius: 0,
        },
        WeaponId::Jackhammer => WeaponDataView {
            id,
            name: "Jackhammer"@,
            damage: 7000,
            fire_rate: 4000,
            projectile_speed: 650_000,
            spread: 250,
            projectiles_per_shot: 6,
            ammo_capacity: Some(100),
            reload_time: 2000,
            projectile_lifetime: 900,
            pierce_count: 0,
            homing: false,
            explosive_radius: 0,
        },
        WeaponId::Blowtorch => WeaponDataView {
            id,
            name: "Blowtorch"@,
            damage: 5000,
            fire_rate: 20_000,
            projectile_speed: 400_000,
            spread: 400,
            projectiles_per_shot: 3,
            ammo_capacity: Some(500),
            reload_time: 2000,
            projectile_lifetime: 300,
            pierce_count: 2,
            homing: false,
            explosive_radius: 0,
        },
        WeaponId::Flamethrower => WeaponDataView {
            id,
            name: "Flamethrower"@,
            damage: 8000,
            fire_rate: 25_000,
            projectile_speed: 300_000,
            spread: 300,
            projectiles_per_shot: 1,
            ammo_capacity: Some(400),
            reload_time: 2000,
            projectile_lifetime: 500,
            pierce_count: 3,
            homing: false,
            explosive_radius: 0,
        },
        WeaponId::PlasmaRifle => WeaponDataView {
            id,
            name: "Plasma Rifle"@,
            damage: 25_000,
            fire_rate: 8000,
            projectile_speed: 600_000,
            spread: 50,
            projectiles_per_shot: 1,
            ammo_capacity: Some(150),
            reload_time: 1500,
            projectile_lifetime: 2000,
            pierce_count: 2,
            homing: false,
            explosive_radius: 0,
        },
        WeaponId::PulseGun => WeaponDataView {
            id,
            name: "Pulse Gun"@,
            damage: 30_000,
            fire_rate: 6000,
            projectile_speed: 550_000,
            spread: 30,
            projectiles_per_shot: 1,
            ammo_capacity: Some(100),
            reload_time: 1500,
            projectile_lifetime: 2500,
            pierce_count: 3,
            homing: false,
            explosive_radius: 0,
        },
        WeaponId::IonRifle => WeaponDataView {
            id,
            name: "Ion Rifle"@,
            damage: 40_000,
            fire_rate: 3000,
            projectile_speed: 1_200_000,
            spread: 10,
            projectiles_per_shot: 1,
            ammo_capacity: Some(60),
            reload_time: 2000,
            projectile_lifetime: 2000,
            pierce_count: 5,
            homing: false,
            explosive_radius: 0,
        },
        WeaponId::GaussGun => WeaponDataView {
            id,
            name: "Gauss Gun"@,
            damage: 80_000,
            fire_rate: 1500,
            projectile_speed: 1_500_000,
            spread: 0,
            projectiles_per_shot: 1,
            ammo_capacity: Some(30),
            reload_time: 2500,
            projectile_lifetime: 3000,
            pierce_count: 10,
            homing: false,
            explosive_radius: 0,
        },
        WeaponId::GaussShotgun => WeaponDataView {
            id,
            name: "Gauss Shotgun"@,
            damage: 30_000,
            fire_rate: 1000,
            projectile_speed: 1_200_000,
            spread: 200,
            projectiles_per_shot: 5,
            ammo_capacity: Some(25),
            reload_time: 2500,
            projectile_lifetime: 2000,
            pierce_count: 3,
            homing: false,
            explosive_radius: 0,
        },
        WeaponId::ShrinkRay => WeaponDataView {
            id,
            name: "Shrink Ray"@,
            damage: 5000,
            fire_rate: 10_000,
            projectile_speed: 500_000,
            spread: 100,
            projectiles_per_shot: 1,
            ammo_capacity: Some(200),
            reload_time: 1500,
            projectile_lifetime: 1500,
            pierce_count: 0,
            homing: false,
            explosive_radius: 0,
        },
        WeaponId::FreezeRay => WeaponDataView {
            id,
            name: "Freeze Ray"@,
            damage: 3000,
            fire_rate: 15_000,
            projectile_speed: 400_000,
            spread: 150,
            projectiles_per_shot: 1,
            ammo_capacity: Some(300),
            reload_time: 1500,
            projectile_lifetime: 1000,
            pierce_count: 0,
            homing: false,
            explosive_radius: 0,
        },
        WeaponId::RocketLauncher => WeaponDataView {
            id,
            name: "Rocket Launcher"@,
            damage: 100_000,
            fire_rate: 1000,
            projectile_speed: 400_000,
            spread: 20,
            projectiles_per_shot: 1,
            ammo_capacity: Some(20),
            reload_time: 2000,
            projectile_lifetime: 4000,
            pierce_count: 0,
            homing: false,
            explosive_radius: 80_000,
        },
        WeaponId::HomingMissile => WeaponDataView {
            id,
            name: "Homing Missile"@,
            damage: 80_000,
            fire_rate: 2000,
            projectile_speed: 350_000,
            spread: 100,
            projectiles_per_shot: 1,
            ammo_capacity: Some(30),
            reload_time: 2000,
            projectile_lifetime: 5000,
            pierce_count: 0,
            homing: true,
            explosive_radius: 60_000,
        },
        WeaponId::GrenadeLauncher => WeaponDataView {
            id,
            name: "Grenade Launcher"@,
            damage: 70_000,
            fire_rate: 2000,
            projectile_speed: 350_000,
            spread: 50,
            projectiles_per_shot: 1,
            ammo_capacity: Some(40),
            reload_time: 2000,
            projectile_lifetime: 3000,
            pierce_count: 0,
            homing: false,
            explosive_radius: 100_000,
        },
        WeaponId::BladeCannon => WeaponDataView {
            id,
            name: "Blade Cannon"@,
            damage: 35_000,
            fire_rate: 5000,
            projectile_speed: 700_000,
            spread: 100,
            projectiles_per_shot: 1,
            ammo_capacity: Some(100),
            reload_time: 1500,
            projectile_lifetime: 2000,
            pierce_count: 5,
            homing: false,
            explosive_radius: 0,
        },
        WeaponId::ChainReactor => WeaponDataView {
            id,
            name: "Chain Reactor"@,
            damage: 20_000,
            fire_rate: 4000,
            projectile_speed: 500_000,
            spread: 50,
            projectiles_per_shot: 1,
            ammo_capacity: Some(80),
            reload_time: 2000,
            projectile_lifetime: 2500,
            pierce_count: 0,
            homing: false,
            explosive_radius: 40_000,
        },
        WeaponId::SplitterGun => WeaponDataView {
            id,
            name: "Splitter Gun"@,
            damage: 15_000,
            fire_rate: 3000,
            projectile_speed: 600_000,
            spread: 50,
            projectiles_per_shot: 1,
            ammo_capacity: Some(60),
            reload_time: 2000,
            projectile_lifetime: 2000,
            pierce_count: 0,
            homing: false,
            explosive_radius: 0,
        },
        WeaponId::InfernoCannon => WeaponDataView {
            id,
            name: "Inferno Cannon"@,
            damage: 50_000,
            fire_rate: 2000,
            projectile_speed: 450_000,
            spread: 100,
            projectiles_per_shot: 1,
            ammo_capacity: Some(50),
            reload_time: 2500,
            projectile_lifetime: 3000,
            pierce_count: 2,
            homing: false,
            explosive_radius: 70_000,
        },
    }
}

/// The weapon at each place of the built-in table.
pub open spec fn weapon_at(index: int) -> WeaponId {
    if index == 0 {
        WeaponId::Pistol
    } else if index == 1 {
        WeaponId::PocketRocket
    } else if index == 2 {
        WeaponId::Magnum
    } else if index == 3 {
        WeaponId::Uzi
    } else if index == 4 {
        WeaponId::Smg
    } else if index == 5 {
        WeaponId::DualSmg
    } else if index == 6 {
        WeaponId::AssaultRifle
    } else if index == 7 {
        WeaponId::MachineGun
    } else if index == 8 {
        WeaponId::Minigun
    } else if index == 9 {
        WeaponId::Shotgun
    } else if index == 10 {
        WeaponId::DoubleBarrel
    } else if index == 11 {
        WeaponId::Jackhammer
    } else if index == 12 {
        WeaponId::Blowtorch
    } else if index == 13 {
        WeaponId::Flamethrower
    } else if index == 14 {
        WeaponId::PlasmaRifle
    } else if index == 15 {
        WeaponId::PulseGun
    } else if index == 16 {
        WeaponId::IonRifle
    } else if index == 17 {
        WeaponId::GaussGun
    } else if index == 18 {
        WeaponId::GaussShotgun
    } else if index == 19 {
        WeaponId::ShrinkRay
    } else if index == 20 {
        WeaponId::FreezeRay
    } else if index == 21 {
        WeaponId::RocketLauncher
    } else if index == 22 {
        WeaponId::HomingMissile
    } else if index == 23 {
        WeaponId::GrenadeLauncher
    } else if index == 24 {
        WeaponId::BladeCannon
    } else if index == 25 {
        WeaponId::ChainReactor
    } else if index == 26 {
        WeaponId::SplitterGun
    } else {
        WeaponId::InfernoCannon
    }
}

/// The place of each weapon in the built-in table.
pub open spec fn index_of(id: WeaponId) -> int {
    match id {
        WeaponId::Pistol => 0,
        WeaponId::PocketRocket => 1,
        WeaponId::Magnum => 2,
        WeaponId::Uzi => 3,
        WeaponId::Smg => 4,
        WeaponId::DualSmg => 5,
        WeaponId::AssaultRifle => 6,
        WeaponId::MachineGun => 7,
        WeaponId::Minigun => 8,
        WeaponId::Shotgun => 9,
        WeaponId::DoubleBarrel => 10,
        WeaponId::Jackhammer => 11,
        WeaponId::Blowtorch => 12,
        WeaponId::Flamethrower => 13,
        WeaponId::PlasmaRifle => 14,
        WeaponId::PulseGun => 15,
        WeaponId::IonRifle => 16,
        WeaponId::GaussGun => 17,
        WeaponId::GaussShotgun => 18,
        WeaponId::ShrinkRay => 19,
        WeaponId::FreezeRay => 20,
        WeaponId::RocketLauncher => 21,
        WeaponId::HomingMissile => 22,
        WeaponId::GrenadeLauncher => 23,
        WeaponId::BladeCannon => 24,
        WeaponId::ChainReactor => 25,
        WeaponId::SplitterGun => 26,
        WeaponId::InfernoCannon => 27,
    }
}

/// The built-in weapons in the order of the table.
pub open spec fn builtin_table() -> Seq<WeaponDataView> {
    Seq::new(28, |i: int| builtin_weapon(weapon_at(i)))
}

/// The views of a list of weapon data.
pub open spec fn weapon_views(weapons: Seq<WeaponData>) -> Seq<WeaponDataView> {
    Seq::new(weapons.len(), |i: int| weapons[i]@)
}

/// Whether the entry at `index` is the first one for `id`.
pub open spec fn is_first_entry(weapons: Seq<WeaponData>, id: WeaponId, index: int) -> bool {
    &&& 0 <= index < weapons.len()
    &&& weapons[index].id == id
    &&& forall|j: int| 0 <= j < index ==> (#[trigger] weapons[j]).id != id
}

/// Whether no entry is for `id`.
pub open spec fn has_no_entry(weapons: Seq<WeaponData>, id: WeaponId) -> bool {
    forall|j: int| 0 <= j < weapons.len() ==> (#[trigger] weapons[j]).id != id
}

/// Registry containing all weapon definitions.
pub struct WeaponRegistry {
    pub weapons: Vec<WeaponData>,
}

impl Default for WeaponRegistry {
    fn default() -> (r: Self)
        ensures
            weapon_views(r.weapons@) == builtin_table(),
    {
        WeaponRegistry::new()
    }
}

impl WeaponRegistry {
    /// A registry that holds the built-in table.
    pub fn new() -> (r: Self)
        ensures
            weapon_views(r.weapons@) == builtin_table(),
    {
        let mut registry = WeaponRegistry { weapons: Vec::new() };
        registry.register_all_weapons();
        registry
    }

    /// The first entry for `id`, or `None` for a weapon the registry does not
    /// know.
    pub fn get(&self, id: WeaponId) -> (r: Option<&WeaponData>)
        ensures
            match r {
                Some(w) => exists|i: int| is_first_entry(self.weapons@, id, i) && self.weapons@[i] == *w,
                None => has_no_entry(self.weapons@, id),
            },
    {
        let mut i: usize = 0;
        while i < self.weapons.len()
            invariant
                i <= self.weapons.len(),
                forall|j: int| 0 <= j < i ==> (#[trigger] self.weapons@[j]).id != id,
            decreases self.weapons.len() - i,
        {
            if self.weapons[i].id == id {
                assert(is_first_entry(self.weapons@, id, i as int));
                return Some(&self.weapons[i]);
            }
            i += 1;
        }
        None
    }

    /// Replaces the contents by the built-in table.
    pub fn register_all_weapons(&mut self)
        ensures
            weapon_views(final(self).weapons@) == builtin_table(),
    {
        let mut weapons: Vec<WeaponData> = Vec::new();
        weapons.push(
            WeaponData {
                id: WeaponId::Pistol,
                name: "Pistol".to_owned(),
                damage: 15_000,
                fire_rate: 5000,
                projectile_speed: 800_000,
                spread: 50,
                projectiles_per_shot: 1,
                ammo_capacity: None,
                reload_time: 0,
                projectile_lifetime: 2000,
                pierce_count: 0,
                homing: false,
                explosive_radius: 0,
            },
        );
        weapons.push(
            WeaponData {
                id: WeaponId::PocketRocket,
                name: "Pocket Rocket".to_owned(),
                damage: 50_000,
                fire_rate: 2000,
                projectile_speed: 500_000,
                spread: 20,
                projectiles_per_shot: 1,
                ammo_capacity: Some(30),
                reload_time: 1500,
                projectile_lifetime: 3000,
                pierce_count: 0,
                homing: false,
                explosive_radius: 50_000,
            },
        );
        weapons.push(
            WeaponData {
                id: WeaponId::Magnum,
                name: "Magnum".to_owned(),
                damage: 60_000,
                fire_rate: 2000,
                projectile_speed: 1_000_000,
                spread: 20,
                projectiles_per_shot: 1,
                ammo_capacity: Some(36),
                reload_time: 1000,
                projectile_lifetime: 2500,
                pierce_count: 1,
                homing: false,
                explosive_radius: 0,
            },
        );
        weapons.push(
            WeaponData {
                id: WeaponId::Uzi,
                name: "Uzi".to_owned(),
                damage: 10_000,
                fire_rate: 15_000,
                projectile_speed: 700_000,
                spread: 150,
                projectiles_per_shot: 1,
                ammo_capacity: Some(200),
                reload_time: 1500,
                projectile_lifetime: 1500,
                pierce_count: 0,
                homing: false,
                explosive_radius: 0,
            },
        );
        weapons.push(
            WeaponData {
                id: WeaponId::Smg,
                name: "SMG".to_owned(),
                damage: 12_000,
                fire_rate: 12_000,
                projectile_speed: 750_000,
                spread: 100,
                projectiles_per_shot: 1,
                ammo_capacity: Some(250),
                reload_time: 1500,
                projectile_lifetime: 1500,
                pierce_count: 0,
                homing: false,
                explosive_radius: 0,
            },
        );
        weapons.push(
            WeaponData {
                id: WeaponId::DualSmg,
                name: "Dual SMG".to_owned(),
                damage: 10_000,
                fire_rate: 20_000,
                projectile_speed: 750_000,
                spread: 200,
                projectiles_per_shot: 2,
                ammo_capacity: Some(400),
                reload_time: 2000,
                projectile_lifetime: 1500,
                pierce_count: 0,
                homing: false,
                explosive_radius: 0,
            },
        );
        weapons.push(
            WeaponData {
                id: WeaponId::AssaultRifle,
                name: "Assault Rifle".to_owned(),
                damage: 18_000,
                fire_rate: 10_000,
                projectile_speed: 900_000,
                spread: 80,
                projectiles_per_shot: 1,
                ammo_capacity: Some(300),
                reload_time: 1500,
                projectile_lifetime: 2000,
                pierce_count: 0,
                homing: false,
                explosive_radius: 0,
            },
        );
        weapons.push(
            WeaponData {
                id: WeaponId::MachineGun,
                name: "Machine Gun".to_owned(),
                damage: 15_000,
                fire_rate: 14_000,
                projectile_speed: 850_000,
                spread: 120,
                projectiles_per_shot: 1,
                ammo_capacity: Some(500),
                reload_time: 2000,
                projectile_lifetime: 2000,
                pierce_count: 0,
                homing: false,
                explosive_radius: 0,
            },
        );
        weapons.push(
            WeaponData {
                id: WeaponId::Minigun,
                name: "Minigun".to_owned(),
                damage: 12_000,
                fire_rate: 30_000,
                projectile_speed: 800_000,
                spread: 150,
                projectiles_per_shot: 1,
                ammo_capacity: Some(1000),
                reload_time: 3000,
                projectile_lifetime: 1500,
                pierce_count: 0,
                homing: false,
                explosive_radius: 0,
            },
        );
        weapons.push(
            WeaponData {
                id: WeaponId::Shotgun,
                name: "Shotgun".to_owned(),
                damage: 8000,
                fire_rate: 2000,
                projectile_speed: 600_000,
                spread: 300,
                projectiles_per_shot: 8,
                ammo_capacity: Some(50),
                reload_time: 1500,
                projectile_lifetime: 800,
                pierce_count: 0,
                homing: false,
                explosive_radius: 0,
            },
        );
        weapons.push(
            WeaponData {
                id: WeaponId::DoubleBarrel,
                name: "Double Barrel".to_owned(),
                damage: 10_000,
                fire_rate: 1500,
                projectile_speed: 600_000,
                spread: 350,
                projectiles_per_shot: 12,
                ammo_capacity: Some(40),
                reload_time: 2000,
                projectile_lifetime: 700,
                pierce_count: 0,
                homing: false,
                explosive_radius: 0,
            },
        );
        weapons.push(
            WeaponData {
                id: WeaponId::Jackhammer,
                name: "Jackhammer".to_owned(),
                damage: 7000,
                fire_rate: 4000,
                projectile_speed: 650_000,
                spread: 250,
                projectiles_per_shot: 6,
                ammo_capacity: Some(100),
                reload_time: 2000,
                projectile_lifetime: 900,
                pierce_count: 0,
                homing: false,
                explosive_radius: 0,
            },
        );
        weapons.push(
            WeaponData {
                id: WeaponId::Blowtorch,
                name: "Blowtorch".to_owned(),
                damage: 5000,
                fire_rate: 20_000,
                projectile_speed: 400_000,
                spread: 400,
                projectiles_per_shot: 3,
                ammo_capacity: Some(500),
                reload_time: 2000,
                projectile_lifetime: 300,
                pierce_count: 2,
                homing: false,
                explosive_radius: 0,
            },
        );
        weapons.push(
            WeaponData {
                id: WeaponId::Flamethrower,
                name: "Flamethrower".to_owned(),
                damage: 8000,
                fire_rate: 25_000,
                projectile_speed: 300_000,
                spread: 300,
                projectiles_per_shot: 1,
                ammo_capacity: Some(400),
                reload_time: 2000,
                projectile_lifetime: 500,
                pierce_count: 3,
                homing: false,
                explosive_radius: 0,
            },
        );
        weapons.push(
            WeaponData {
                id: WeaponId::PlasmaRifle,
                name: "Plasma Rifle".to_owned(),
                damage: 25_000,
                fire_rate: 8000,
                projectile_speed: 600_000,
                spread: 50,
                projectiles_per_shot: 1,
                ammo_capacity: Some(150),
                reload_time: 1500,
                projectile_lifetime: 2000,
                pierce_count: 2,
                homing: false,
                explosive_radius: 0,
            },
        );
        weapons.push(
            WeaponData {
                id: WeaponId::PulseGun,
                name: "Pulse Gun".to_owned(),
                damage: 30_000,
                fire_rate: 6000,
                projectile_speed: 550_000,
                spread: 30,
                projectiles_per_shot: 1,
                ammo_capacity: Some(100),
                reload_time: 1500,
                projectile_lifetime: 2500,
                pierce_count: 3,
                homing: false,
                explosive_radius: 0,
            },
        );
        weapons.push(
            WeaponData {
                id: WeaponId::IonRifle,
                name: "Ion Rifle".to_owned(),
                damage: 40_000,
                fire_rate: 3000,
                projectile_speed: 1_200_000,
                spread: 10,
                projectiles_per_shot: 1,
                ammo_capacity: Some(60),
                reload_time: 2000,
                projectile_lifetime: 2000,
                pierce_count: 5,
                homing: false,
                explosive_radius: 0,
            },
        );
        weapons.push(
            WeaponData {
                id: WeaponId::GaussGun,
                name: "Gauss Gun".to_owned(),
                damage: 80_000,
                fire_rate: 1500,
                projectile_speed: 1_500_000,
                spread: 0,
                projectiles_per_shot: 1,
                ammo_capacity: Some(30),
                reload_time: 2500,
                projectile_lifetime: 3000,
                pierce_count: 10,
                homing: false,
                explosive_radius: 0,
            },
        );
        weapons.push(
            WeaponData {
                id: WeaponId::GaussShotgun,
                name: "Gauss Shotgun".to_owned(),
                damage: 30_000,
                fire_rate: 1000,
                projectile_speed: 1_200_000,
                spread: 200,
                projectiles_per_shot: 5,
                ammo_capacity: Some(25),
                reload_time: 2500,
                projectile_lifetime: 2000,
                pierce_count: 3,
                homing: false,
                explosive_radius: 0,
            },
        );
        weapons.push(
            WeaponData {
                id: WeaponId::ShrinkRay,
                name: "Shrink Ray".to_owned(),
                damage: 5000,
                fire_rate: 10_000,
                projectile_speed: 500_000,
                spread: 100,
                projectiles_per_shot: 1,
                ammo_capacity: Some(200),
                reload_time: 1500,
                projectile_lifetime: 1500,
                pierce_count: 0,
                homing: false,
                explosive_radius: 0,
            },
        );
        weapons.push(
            WeaponData {
                id: WeaponId::FreezeRay,
                name: "Freeze Ray".to_owned(),
                damage: 3000,
                fire_rate: 15_000,
                projectile_speed: 400_000,
                spread: 150,
                projectiles_per_shot: 1,
                ammo_capacity: Some(300),
                reload_time: 1500,
                projectile_lifetime: 1000,
                pierce_count: 0,
                homing: false,
                explosive_radius: 0,
            },
        );
        weapons.push(
            WeaponData {
                id: WeaponId::RocketLauncher,
                name: "Rocket Launcher".to_owned(),
                damage: 100_000,
                fire_rate: 1000,
                projectile_speed: 400_000,
                spread: 20,
                projectiles_per_shot: 1,
                ammo_capacity: Some(20),
                reload_time: 2000,
                projectile_lifetime: 4000,
                pierce_count: 0,
                homing: false,
                explosive_radius: 80_000,
            },
        );
        weapons.push(
            WeaponData {
                id: WeaponId::HomingMissile,
                name: "Homing Missile".to_owned(),
                damage: 80_000,
                fire_rate: 2000,
                projectile_speed: 350_000,
                spread: 100,
                projectiles_per_shot: 1,
                ammo_capacity: Some(30),
                reload_time: 2000,
                projectile_lifetime: 5000,
                pierce_count: 0,
                homing: true,
                explosive_radius: 60_000,
            },
        );
        weapons.push(
            WeaponData {
                id: WeaponId::GrenadeLauncher,
                name: "Grenade Launcher".to_owned(),
                damage: 70_000,
                fire_rate: 2000,
                projectile_speed: 350_000,
                spread: 50,
                projectiles_per_shot: 1,
                ammo_capacity: Some(40),
                reload_time: 2000,
                projectile_lifetime: 3000,
                pierce_count: 0,
                homing: false,
                explosive_radius: 100_000,
            },
        );
        weapons.push(
            WeaponData {
                id: WeaponId::BladeCannon,
                name: "Blade Cannon".to_owned(),
                damage: 35_000,
                fire_rate: 5000,
                projectile_speed: 700_000,
                spread: 100,
                projectiles_per_shot: 1,
                ammo_capacity: Some(100),
                reload_time: 1500,
                projectile_lifetime: 2000,
                pierce_count: 5,
                homing: false,
                explosive_radius: 0,
            },
        );
        weapons.push(
            WeaponData {
                id: WeaponId::ChainReactor,
                name: "Chain Reactor".to_owned(),
                damage: 20_000,
                fire_rate: 4000,
                projectile_speed: 500_000,
                spread: 50,
                projectiles_per_shot: 1,
                ammo_capacity: Some(80),
                reload_time: 2000,
                projectile_lifetime: 2500,
                pierce_count: 0,
                homing: false,
                explosive_radius: 40_000,
            },
        );
        weapons.push(
            WeaponData {
                id: WeaponId::SplitterGun,
                name: "Splitter Gun".to_owned(),
                damage: 15_000,
                fire_rate: 3000,
                projectile_speed: 600_000,
                spread: 50,
                projectiles_per_shot: 1,
                ammo_capacity: Some(60),
                reload_time: 2000,
                projectile_lifetime: 2000,
                pierce_count: 0,
                homing: false,
                explosive_radius: 0,
            },
        );
        weapons.push(
            WeaponData {
                id: WeaponId::InfernoCannon,
                name: "Inferno Cannon".to_owned(),
                damage: 50_000,
                fire_rate: 2000,
                projectile_speed: 450_000,
                spread: 100,
                projectiles_per_shot: 1,
                ammo_capacity: Some(50),
                reload_time: 2500,
                projectile_lifetime: 3000,
                pierce_count: 2,
                homing: false,
                explosive_radius: 70_000,
            },
        );
        assert(weapon_views(weapons@) =~= builtin_table());
        self.weapons = weapons;
    }
}

/// Every built-in entry carries the id it is listed under.
pub proof fn lemma_builtin_weapon_id(id: WeaponId)
    ensures
        builtin_weapon(id).id == id,
{
}

/// The built-in table knows every weapon, once: the entry at a weapon's place
/// is that weapon's built-in data, and no other entry is for the same weapon.
pub proof fn lemma_builtin_table_complete(id: WeaponId)
    ensures
        0 <= index_of(id) < builtin_table().len(),
        builtin_table()[index_of(id)] == builtin_weapon(id),
        forall|j: int|
            0 <= j < builtin_table().len() && (#[trigger] builtin_table()[j]).id == id ==> j
                == index_of(id),
{
    assert(weapon_at(index_of(id)) == id);
    assert forall|j: int|
        0 <= j < builtin_table().len() && (#[trigger] builtin_table()[j]).id == id implies j
        == index_of(id) by {
        lemma_builtin_weapon_id(weapon_at(j));
        assert(index_of(weapon_at(j)) == j);
    }
}

} // verus!
