//! Weapon state and the parts a projectile is made of.

use vstd::prelude::*;
use crate::fixed::{mul_div, mul_div_spec, scale, scale_spec};
use crate::geometry::{is_heading, normalize_or_zero, normalize_spec, Vector};

verus! {

/// Weapon types available in the game.
#[derive(Debug, Clone, Copy, PartialEq, Eq, Hash, Structural)]
pub enum WeaponId {
    Pistol,
    PocketRocket,
    Magnum,
    Uzi,
    Smg,
    DualSmg,
    AssaultRifle,
    MachineGun,
    Minigun,
    Shotgun,
    DoubleBarrel,
    Jackhammer,
    Blowtorch,
    Flamethrower,
    PlasmaRifle,
    PulseGun,
    IonRifle,
    GaussGun,
    GaussShotgun,
    ShrinkRay,
    FreezeRay,
    RocketLauncher,
    HomingMissile,
    GrenadeLauncher,
    BladeCannon,
    ChainReactor,
    SplitterGun,
    InfernoCannon,
}

impl Default for WeaponId {
    fn default() -> (r: Self)
        ensures
            r == WeaponId::Pistol,
    {
        WeaponId::Pistol
    }
}

/// Where a weapon stands between shots.
#[derive(Debug, Clone, Copy, PartialEq, Eq, Structural)]
pub enum WeaponPhase {
    /// Loaded and cooled down: the next fire command shoots.
    Ready,
    /// Waiting out the pause after a shot.
    OnCooldown,
    /// Waiting for a reload to finish.
    Reloading,
    /// Out of finite ammunition and not reloading.
    Empty,
}

/// The weapon an owner holds: ammunition (`None` is infinite), and the two
/// timers, in milliseconds, that keep it from firing.
#[derive(Debug, Clone, Copy, PartialEq, Eq, Structural)]
pub struct EquippedWeapon {
    pub weapon_id: WeaponId,
    pub ammo: Option<u32>,
    pub fire_cooldown: u32,
    /// Time left of a reload; zero means not reloading.
    pub reload_timer: u32,
    /// Capacity of the weapon; `None` is infinite.
    pub max_ammo: Option<u32>,
}

/// The pause after a shot: the weapon's own pause divided by the owner's
/// fire-rate multiplier. A multiplier of zero never lets the weapon fire again.
pub open spec fn cooldown_after_shot(base_cooldown: int, fire_rate_multiplier: int) -> int {
    if fire_rate_multiplier <= 0 {
        u32::MAX as int
    } else {
        mul_div_spec(base_cooldown, 1000, fire_rate_multiplier)
    }
}

impl Default for EquippedWeapon {
    fn default() -> (r: Self)
        ensures
            r == (EquippedWeapon {
                weapon_id: WeaponId::Pistol,
                ammo: None,
                fire_cooldown: 0,
                reload_timer: 0,
                max_ammo: None,
            }),
    {
        EquippedWeapon {
            weapon_id: WeaponId::Pistol,
            ammo: None,
            fire_cooldown: 0,
            reload_timer: 0,
            max_ammo: None,
        }
    }
}

impl EquippedWeapon {
    /// Whether there is ammunition: some rounds, or infinitely many.
    pub open spec fn spec_has_ammo(self) -> bool {
        match self.ammo {
            Some(a) => a > 0,
            None => true,
        }
    }

    /// Whether a reload is under way.
    pub open spec fn spec_is_reloading(self) -> bool {
        self.reload_timer > 0
    }

    /// Fire eligibility: both timers have run out and there is ammunition.
    pub open spec fn spec_can_fire(self) -> bool {
        self.fire_cooldown == 0 && self.reload_timer == 0 && self.spec_has_ammo()
    }

    /// The state the weapon is in: reloading comes before empty, empty before
    /// cooling down.
    pub open spec fn spec_phase(self) -> WeaponPhase {
        if self.reload_timer > 0 {
            WeaponPhase::Reloading
        } else if !self.spec_has_ammo() {
            WeaponPhase::Empty
        } else if self.fire_cooldown > 0 {
            WeaponPhase::OnCooldown
        } else {
            WeaponPhase::Ready
        }
    }

    /// The ammunition left after one firing event: one unit less where it is
    /// finite and not yet zero.
    pub open spec fn ammo_after_shot(self) -> Option<u32> {
        match self.ammo {
            Some(a) => Some(if a > 0 { (a - 1) as u32 } else { 0 }),
            None => None,
        }
    }

    /// The weapon after one firing event.
    pub open spec fn after_shot(self, base_cooldown: u32, fire_rate_multiplier: u32) -> EquippedWeapon {
        EquippedWeapon {
            ammo: self.ammo_after_shot(),
            fire_cooldown: cooldown_after_shot(base_cooldown as int, fire_rate_multiplier as int) as u32,
            ..self
        }
    }

    /// The weapon after a reload command that takes `reload_time`.
    pub open spec fn after_reload_command(self, reload_time: u32) -> EquippedWeapon {
        if self.ammo is Some && self.reload_timer == 0 {
            EquippedWeapon { reload_timer: reload_time, ..self }
        } else {
            self
        }
    }

    /// The weapon with a finished reload: a finite weapon is back at capacity.
    pub open spec fn reloaded(self) -> EquippedWeapon {
        EquippedWeapon {
            ammo: match self.max_ammo {
                Some(m) => Some(m),
                None => self.ammo,
            },
            reload_timer: 0,
            ..self
        }
    }

    /// The weapon with a finished reload where the owner's ammunition
    /// multiplier scales the capacity.
    pub open spec fn reloaded_with(self, ammo_multiplier: u32) -> EquippedWeapon {
        EquippedWeapon {
            ammo: match self.max_ammo {
                Some(m) => Some(scale_spec(m as int, ammo_multiplier as int) as u32),
                None => self.ammo,
            },
            reload_timer: 0,
            ..self
        }
    }

    /// The weapon after `dt` milliseconds: the cooldown runs down, and a reload
    /// whose timer runs out is finished.
    pub open spec fn after_tick(self, dt: u32, ammo_multiplier: u32) -> EquippedWeapon {
        let cooled = EquippedWeapon {
            fire_cooldown: if self.fire_cooldown >= dt {
                (self.fire_cooldown - dt) as u32
            } else {
                0
            },
            ..self
        };
        if self.reload_timer == 0 {
            cooled
        } else if self.reload_timer > dt {
            EquippedWeapon { reload_timer: (self.reload_timer - dt) as u32, ..cooled }
        } else {
            cooled.reloaded_with(ammo_multiplier)
        }
    }

    /// A freshly equipped weapon: ready, and full.
    pub fn new(weapon_id: WeaponId, ammo: Option<u32>) -> (r: Self)
        ensures
            r == (EquippedWeapon {
                weapon_id,
                ammo,
                fire_cooldown: 0,
                reload_timer: 0,
                max_ammo: ammo,
            }),
    {
        EquippedWeapon { weapon_id, ammo, fire_cooldown: 0, reload_timer: 0, max_ammo: ammo }
    }

    /// Whether the next fire command shoots.
    pub fn can_fire(&self) -> (r: bool)
        ensures
            r == self.spec_can_fire(),
            r == (self.spec_phase() == WeaponPhase::Ready),
    {
        self.fire_cooldown == 0 && self.reload_timer == 0 && self.has_ammo()
    }

    /// Takes one unit of finite ammunition, stopping at zero.
    pub fn consume_ammo(&mut self)
        ensures
            *final(self) == (EquippedWeapon { ammo: old(self).ammo_after_shot(), ..*old(self) }),
    {
        match self.ammo {
            Some(a) => {
                self.ammo = Some(a.saturating_sub(1));
            },
            None => {},
        }
    }

    /// Whether there is ammunition: some rounds, or infinitely many.
    pub fn has_ammo(&self) -> (r: bool)
        ensures
            r == self.spec_has_ammo(),
    {
        match self.ammo {
            Some(a) => a > 0,
            None => true,
        }
    }

    /// Whether a reload is under way.
    pub fn is_reloading(&self) -> (r: bool)
        ensures
            r == self.spec_is_reloading(),
    {
        self.reload_timer > 0
    }

    /// Starts a reload of a finite weapon that is not reloading already.
    pub fn start_reload(&mut self, reload_time: u32)
        ensures
            *final(self) == old(self).after_reload_command(reload_time),
    {
        if self.ammo.is_some() && !self.is_reloading() {
            self.reload_timer = reload_time;
        }
    }

    /// Ends a reload at once: a finite weapon is back at its capacity.
    pub fn finish_reload(&mut self)
        ensures
            *final(self) == old(self).reloaded(),
    {
        match self.max_ammo {
            Some(m) => {
                self.ammo = Some(m);
            },
            None => {},
        }
        self.reload_timer = 0;
    }

    /// The state the weapon is in.
    pub fn phase(&self) -> (r: WeaponPhase)
        ensures
            r == self.spec_phase(),
    {
        if self.reload_timer > 0 {
            WeaponPhase::Reloading
        } else if !self.has_ammo() {
            WeaponPhase::Empty
        } else if self.fire_cooldown > 0 {
            WeaponPhase::OnCooldown
        } else {
            WeaponPhase::Ready
        }
    }

    /// Books one firing event: one unit of ammunition and one cooldown,
    /// however many projectiles the shot sends out.
    pub fn register_shot(&mut self, base_cooldown: u32, fire_rate_multiplier: u32)
        ensures
            *final(self) == old(self).after_shot(base_cooldown, fire_rate_multiplier),
    {
        self.consume_ammo();
        self.fire_cooldown = if fire_rate_multiplier == 0 {
            u32::MAX
        } else {
            mul_div(base_cooldown, 1000, fire_rate_multiplier)
        };
    }

    /// Lets `dt` milliseconds pass on both timers.
    pub fn tick(&mut self, dt: u32, ammo_multiplier: u32)
        ensures
            *final(self) == old(self).after_tick(dt, ammo_multiplier),
    {
        self.fire_cooldown = self.fire_cooldown.saturating_sub(dt);
        if self.reload_timer > 0 {
            if self.reload_timer > dt {
                self.reload_timer = self.reload_timer - dt;
            } else {
                match self.max_ammo {
                    Some(m) => {
                        self.ammo = Some(scale(m, ammo_multiplier));
                    },
                    None => {},
                }
                self.reload_timer = 0;
            }
        }
    }
}

/// What every projectile carries: the weapon it came from, its damage with
/// the owner's bonuses already in it, its owner, and how many more targets it
/// may pass through.
#[derive(Debug, Clone, Copy, PartialEq, Eq, Structural)]
pub struct Projectile {
    pub weapon_id: WeaponId,
    pub damage: u32,
    pub owner: u64,
    pub pierce_count: u32,
}

/// The flight of a projectile: a direction that is a heading, of length one
/// thousand within rounding or zero for a projectile at rest, and a speed in
/// thousandths of a unit per second.
#[derive(Debug, Clone, Copy, PartialEq, Eq, Structural)]
pub struct Velocity {
    pub direction: Vector,
    pub speed: u32,
}

impl Default for Velocity {
    fn default() -> (r: Self)
        ensures
            r == (Velocity { direction: Vector { x: 0, y: 0 }, speed: 0 }),
    {
        Velocity { direction: Vector { x: 0, y: 0 }, speed: 0 }
    }
}

/// Time a projectile has left, in milliseconds.
#[derive(Debug, Clone, Copy, PartialEq, Eq, Structural)]
pub struct Lifetime {
    pub remaining: u32,
}

impl Lifetime {
    /// The lifetime after `delta` milliseconds: it stops at zero.
    pub open spec fn after_tick(self, delta: u32) -> Lifetime {
        Lifetime {
            remaining: if self.remaining >= delta {
                (self.remaining - delta) as u32
            } else {
                0
            },
        }
    }

    /// Whether no time is left.
    pub open spec fn spec_is_expired(self) -> bool {
        self.remaining == 0
    }

    /// A lifetime of the given length.
    pub fn new(milliseconds: u32) -> (r: Self)
        ensures
            r.remaining == milliseconds,
    {
        Lifetime { remaining: milliseconds }
    }

    /// Takes `delta` off the remaining time, stopping at zero.
    pub fn tick(&mut self, delta: u32)
        ensures
            *final(self) == old(self).after_tick(delta),
    {
        self.remaining = self.remaining.saturating_sub(delta);
    }

    /// Whether no time is left.
    pub fn is_expired(&self) -> (r: bool)
        ensures
            r == self.spec_is_expired(),
    {
        self.remaining == 0
    }
}

/// Steering toward a target: the turn rate per second, in thousandths, and
/// the target remembered from the tick before.
#[derive(Debug, Clone, Copy, PartialEq, Eq, Structural)]
pub struct Homing {
    pub turn_rate: u32,
    pub target: Option<u64>,
}

/// Area damage on impact: radius and damage at the centre.
#[derive(Debug, Clone, Copy, PartialEq, Eq, Structural)]
pub struct Explosive {
    pub radius: u32,
    pub damage: u32,
}

/// Lightning that jumps on from each target it hits.
#[derive(Debug)]
pub struct ChainLightning {
    /// Number of jumps remaining.
    pub jumps_remaining: u32,
    /// Maximum distance of a jump.
    pub jump_range: u32,
    /// Share of the damage that each jump keeps, in thousandths.
    pub damage_falloff: u32,
    /// Targets already hit along this chain, none of them twice.
    pub already_hit: Vec<u64>,
}

/// The mathematical content of a [`ChainLightning`].
pub struct ChainLightningView {
    pub jumps_remaining: u32,
    pub jump_range: u32,
    pub damage_falloff: u32,
    pub already_hit: Seq<u64>,
}

impl View for ChainLightning {
    type V = ChainLightningView;

    open spec fn view(&self) -> ChainLightningView {
        ChainLightningView {
            jumps_remaining: self.jumps_remaining,
            jump_range: self.jump_range,
            damage_falloff: self.damage_falloff,
            already_hit: self.already_hit@,
        }
    }
}

impl ChainLightningView {
    /// No target is recorded twice.
    pub open spec fn wf(self) -> bool {
        self.already_hit.no_duplicates()
    }
}

impl ChainLightning {
    /// A chain that has hit nothing yet.
    pub fn new(jumps: u32, range: u32, falloff: u32) -> (r: Self)
        ensures
            r@ == (ChainLightningView {
                jumps_remaining: jumps,
                jump_range: range,
                damage_falloff: falloff,
                already_hit: Seq::empty(),
            }),
            r@.wf(),
    {
        ChainLightning {
            jumps_remaining: jumps,
            jump_range: range,
            damage_falloff: falloff,
            already_hit: Vec::new(),
        }
    }

    /// Whether `entity` was hit along this chain before.
    pub fn has_hit(&self, entity: u64) -> (r: bool)
        ensures
            r == self@.already_hit.contains(entity),
    {
        let mut i: usize = 0;
        while i < self.already_hit.len()
            invariant
                i <= self.already_hit.len(),
                forall|j: int| 0 <= j < i ==> self.already_hit@[j] != entity,
            decreases self.already_hit.len() - i,
        {
            if self.already_hit[i] == entity {
                return true;
            }
            i += 1;
        }
        false
    }
}

/// Fragmentation on impact.
#[derive(Debug, Clone, Copy, PartialEq, Eq, Structural)]
pub struct Splitter {
    /// Number of splits remaining.
    pub splits_remaining: u32,
    /// Number of fragments each split sends out.
    pub split_count: u32,
    /// Share of the damage a fragment keeps, in thousandths.
    pub damage_multiplier: u32,
}

impl Splitter {
    /// A splitter with the given splits left, fragments per split, and share of the damage that a fragment keeps.
    pub fn new(splits: u32, count: u32, damage_mult: u32) -> (r: Self)
        ensures
            r == (Splitter {
                splits_remaining: splits,
                split_count: count,
                damage_multiplier: damage_mult,
            }),
    {
        Splitter { splits_remaining: splits, split_count: count, damage_multiplier: damage_mult }
    }
}

/// Slowing on impact.
#[derive(Debug, Clone, Copy, PartialEq, Eq, Structural)]
pub struct Freezing {
    /// Speed multiplier applied to the target, in thousandths.
    pub slow_amount: u32,
    /// Duration of the slow effect, in milliseconds.
    pub duration: u32,
}

impl Clone for ChainLightning {
    fn clone(&self) -> (r: Self)
        ensures
            r@ == self@,
    {
        ChainLightning {
            jumps_remaining: self.jumps_remaining,
            jump_range: self.jump_range,
            damage_falloff: self.damage_falloff,
            already_hit: self.already_hit.clone(),
        }
    }
}

/// The view of an optional chain tag.
pub open spec fn chain_view(chain: Option<ChainLightning>) -> Option<ChainLightningView> {
    match chain {
        Some(c) => Some(c@),
        None => None,
    }
}

/// Everything a projectile is spawned with: what it carries, how it flies,
/// where it is, and any of the five capabilities, each on its own.
#[derive(Debug)]
pub struct ProjectileBundle {
    pub projectile: Projectile,
    pub velocity: Velocity,
    pub lifetime: Lifetime,
    pub position: Vector,
    pub homing: Option<Homing>,
    pub explosive: Option<Explosive>,
    pub chain_lightning: Option<ChainLightning>,
    pub splitter: Option<Splitter>,
    pub freezing: Option<Freezing>,
}

/// The mathematical content of a [`ProjectileBundle`].
pub struct ProjectileBundleView {
    pub projectile: Projectile,
    pub velocity: Velocity,
    pub lifetime: Lifetime,
    pub position: Vector,
    pub homing: Option<Homing>,
    pub explosive: Option<Explosive>,
    pub chain_lightning: Option<ChainLightningView>,
    pub splitter: Option<Splitter>,
    pub freezing: Option<Freezing>,
}

impl View for ProjectileBundle {
    type V = ProjectileBundleView;

    open spec fn view(&self) -> ProjectileBundleView {
        ProjectileBundleView {
            projectile: self.projectile,
            velocity: self.velocity,
            lifetime: self.lifetime,
            position: self.position,
            homing: self.homing,
            explosive: self.explosive,
            chain_lightning: chain_view(self.chain_lightning),
            splitter: self.splitter,
            freezing: self.freezing,
        }
    }
}

/// A projectile without capabilities and without pierce, flying from
/// `position` along `direction` (of any length) at `speed`.
pub open spec fn plain_bundle(
    weapon_id: WeaponId,
    damage: u32,
    owner: u64,
    position: Vector,
    direction: Vector,
    speed: u32,
    lifetime: u32,
) -> ProjectileBundleView {
    ProjectileBundleView {
        projectile: Projectile { weapon_id, damage, owner, pierce_count: 0 },
        velocity: Velocity {
            direction: normalize_spec(direction.x as int, direction.y as int),
            speed,
        },
        lifetime: Lifetime { remaining: lifetime },
        position,
        homing: None,
        explosive: None,
        chain_lightning: None,
        splitter: None,
        freezing: None,
    }
}

impl ProjectileBundleView {
    /// The hit set of the chain tag holds no target twice.
    pub open spec fn wf(self) -> bool {
        self.chain_lightning is Some ==> self.chain_lightning->0.wf()
    }
}

impl Clone for ProjectileBundle {
    fn clone(&self) -> (r: Self)
        ensures
            r@ == self@,
    {
        ProjectileBundle {
            projectile: self.projectile,
            velocity: self.velocity,
            lifetime: self.lifetime,
            position: self.position,
            homing: self.homing,
            explosive: self.explosive,
            chain_lightning: match &self.chain_lightning {
                Some(c) => Some(c.clone()),
                None => None,
            },
            splitter: self.splitter,
            freezing: self.freezing,
        }
    }
}

impl ProjectileBundle {
    /// A basic projectile: no capabilities, no pierce.
    pub fn new(
        weapon_id: WeaponId,
        damage: u32,
        owner: u64,
        position: Vector,
        direction: Vector,
        speed: u32,
        lifetime: u32,
    ) -> (r: Self)
        ensures
            r@ == plain_bundle(weapon_id, damage, owner, position, direction, speed, lifetime),
            r@.wf(),
            is_heading(r@.velocity.direction),
    {
        ProjectileBundle {
            projectile: Projectile { weapon_id, damage, owner, pierce_count: 0 },
            velocity: Velocity {
                direction: normalize_or_zero(direction.x as i64, direction.y as i64),
                speed,
            },
            lifetime: Lifetime::new(lifetime),
            position,
            homing: None,
            explosive: None,
            chain_lightning: None,
            splitter: None,
            freezing: None,
        }
    }
}

/// A projectile in flight: the entity it is known by, its parts, and the mark
/// that takes it out at the end of the tick.
#[derive(Debug)]
pub struct LiveProjectile {
    pub entity: u64,
    pub bundle: ProjectileBundle,
    /// Set once the projectile is spent; it stays in the list until cleanup.
    pub despawn: bool,
}

/// The mathematical content of a [`LiveProjectile`].
pub struct LiveProjectileView {
    pub entity: u64,
    pub bundle: ProjectileBundleView,
    pub despawn: bool,
}

impl View for LiveProjectile {
    type V = LiveProjectileView;

    open spec fn view(&self) -> LiveProjectileView {
        LiveProjectileView { entity: self.entity, bundle: self.bundle@, despawn: self.despawn }
    }
}

impl Clone for LiveProjectile {
    fn clone(&self) -> (r: Self)
        ensures
            r@ == self@,
    {
        LiveProjectile { entity: self.entity, bundle: self.bundle.clone(), despawn: self.despawn }
    }
}

/// The views of a list of projectiles.
pub open spec fn projectile_views(projectiles: Seq<LiveProjectile>) -> Seq<LiveProjectileView> {
    Seq::new(projectiles.len(), |i: int| projectiles[i]@)
}

/// An order to spawn a projectile. Its heading is the heading of the bundle's
/// direction turned by `turn` millionths of a radian, counter-clockwise.
#[derive(Debug)]
pub struct SpawnOrder {
    pub bundle: ProjectileBundle,
    pub turn: i64,
}

/// The mathematical content of a [`SpawnOrder`].
pub struct SpawnOrderView {
    pub bundle: ProjectileBundleView,
    pub turn: i64,
}

impl View for SpawnOrder {
    type V = SpawnOrderView;

    open spec fn view(&self) -> SpawnOrderView {
        SpawnOrderView { bundle: self.bundle@, turn: self.turn }
    }
}

/// The views of a list of spawn orders.
pub open spec fn order_views(orders: Seq<SpawnOrder>) -> Seq<SpawnOrderView> {
    Seq::new(orders.len(), |i: int| orders[i]@)
}

impl SpawnOrder {
    /// The projectile to spawn, given the heading that the turn leads to.
    pub fn launch(self, heading: Vector) -> (r: ProjectileBundle)
        ensures
            r@ == (ProjectileBundleView {
                velocity: Velocity {
                    direction: normalize_spec(heading.x as int, heading.y as int),
                    speed: self.bundle.velocity.speed,
                },
                ..self.bundle@
            }),
            is_heading(r@.velocity.direction),
    {
        let mut bundle = self.bundle;
        bundle.velocity = Velocity {
            direction: normalize_or_zero(heading.x as i64, heading.y as i64),
            speed: bundle.velocity.speed,
        };
        bundle
    }
}

} // verus!
