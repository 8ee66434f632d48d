use crimsonland::audio::{bonus_pickup_sound, weapon_fire_sound, AudioSettings, PlaySoundEvent, SoundEffect};
use crimsonland::bonuses::components::BonusType;
use crimsonland::effects::components::{
    trigger_screen_shake_on_hit, Effect, EffectType, Particle, ScreenShake, SpawnEffectEvent,
};
use crimsonland::effects::systems::{
    draw_scatter, effect_at, make_particle, ring_turn, scatter, Scatter,
};
use crimsonland::geometry::Vector;
use crimsonland::weapons::components::WeaponId;

fn zero() -> Vector {
    Vector { x: 0, y: 0 }
}

#[test]
fn audio_settings_default_disabled() {
    let settings = AudioSettings::default();
    assert!(!settings.music_enabled);
    assert!(!settings.sfx_enabled);
    assert!(settings.master_volume > 0);
}

#[test]
fn audio_settings_effective_volume_respects_enabled() {
    let mut settings = AudioSettings::default();
    settings.music_enabled = true;
    assert!(settings.effective_music_volume() > 0);

    settings.music_enabled = false;
    assert_eq!(settings.effective_music_volume(), 0);
}

#[test]
fn audio_settings_effective_volume_respects_master() {
    let mut settings = AudioSettings::default();
    settings.music_enabled = true;
    settings.master_volume = 500;
    settings.music_volume = 1000;

    assert_eq!(settings.effective_music_volume(), 500);
}

#[test]
fn effective_volumes() {
    let settings = AudioSettings { music_enabled: true, sfx_enabled: true, ..AudioSettings::default() };
    assert_eq!(settings.effective_music_volume(), 700);
    assert_eq!(settings.effective_sfx_volume(), 1000);
    let quiet = AudioSettings { master_volume: 250, sfx_volume: 500, ..settings };
    assert_eq!(quiet.effective_sfx_volume(), 125);
    assert_eq!(AudioSettings::default().effective_sfx_volume(), 0);
}

#[test]
fn sounds_of_weapons_and_bonuses() {
    assert_eq!(weapon_fire_sound(WeaponId::Pistol), SoundEffect::PistolFire);
    assert_eq!(weapon_fire_sound(WeaponId::PocketRocket), SoundEffect::PistolFire);
    assert_eq!(weapon_fire_sound(WeaponId::Uzi), SoundEffect::RifleFire);
    assert_eq!(weapon_fire_sound(WeaponId::GaussShotgun), SoundEffect::ShotgunFire);
    assert_eq!(weapon_fire_sound(WeaponId::GrenadeLauncher), SoundEffect::RocketFire);
    assert_eq!(weapon_fire_sound(WeaponId::GaussGun), SoundEffect::PlasmaFire);
    assert_eq!(weapon_fire_sound(WeaponId::Flamethrower), SoundEffect::RifleFire);
    assert_eq!(weapon_fire_sound(WeaponId::HomingMissile), SoundEffect::RifleFire);
    assert_eq!(bonus_pickup_sound(BonusType::FullHealth), SoundEffect::HealthPickup);
    assert_eq!(bonus_pickup_sound(BonusType::WeaponPickup), SoundEffect::WeaponPickup);
    assert_eq!(bonus_pickup_sound(BonusType::Nuke), SoundEffect::BonusPickup);
    let event = PlaySoundEvent { sound: SoundEffect::Explosion, position: Some(zero()) };
    assert_eq!(event.sound, SoundEffect::Explosion);
}

#[test]
fn particle_progress_starts_at_zero() {
    let particle = Particle::new(zero(), 1000);
    assert_eq!(particle.progress(), 0);
}

#[test]
fn particle_expires_when_lifetime_zero() {
    let mut particle = Particle::new(zero(), 1000);
    assert!(!particle.is_expired());
    particle.lifetime = 0;
    assert!(particle.is_expired());
}

#[test]
fn screen_shake_adds_and_caps() {
    let mut shake = ScreenShake::default();
    shake.add(10_000, 500);
    assert!(shake.intensity > 0);

    shake.add(100_000, 500);
    assert!(shake.intensity <= 20_000);
}

#[test]
fn screen_shake_decays() {
    let mut shake = ScreenShake::default();
    shake.add(10_000, 1000);

    let initial = shake.intensity;
    shake.update(500);
    assert!(shake.intensity < initial);
}

#[test]
fn screen_shake_offset_zero_when_no_shake() {
    let shake = ScreenShake::default();
    assert_eq!(shake.get_offset(), None);
}

#[test]
fn particle_progress_and_builders() {
    let mut particle = Particle::new(Vector { x: 5, y: -5 }, 400);
    particle.lifetime = 300;
    assert_eq!(particle.progress(), 250);
    particle.lifetime = 0;
    assert_eq!(particle.progress(), 1000);
    particle.lifetime = 900;
    assert_eq!(particle.progress(), 0);
    assert_eq!(Particle::new(zero(), 0).progress(), 1000);
    let (effect, blood) = Particle::blood(Vector { x: 1, y: 2 });
    assert_eq!(effect, Effect { effect_type: EffectType::BloodSplatter });
    assert_eq!(blood, Particle::new(Vector { x: 1, y: 2 }, 500).with_gravity(200_000));
    let (effect, spark) = Particle::explosion(zero());
    assert_eq!(effect.effect_type, EffectType::Explosion);
    assert_eq!(spark.scale_over_time, Some(2000));
    assert_eq!(spark.lifetime, 300);
    let (effect, flash) = Particle::muzzle_flash();
    assert_eq!(effect.effect_type, EffectType::MuzzleFlash);
    assert_eq!(flash, Particle::new(zero(), 50));
    assert!(!Particle::new(zero(), 1).with_fade(false).fade_out);
}

#[test]
fn screen_shake_numbers() {
    let mut shake = ScreenShake::default();
    shake.add(10_000, 500);
    assert_eq!(shake, ScreenShake { intensity: 10_000, duration: 500, decay: 20_000 });
    shake.add(3000, 300);
    assert_eq!(shake, ScreenShake { intensity: 13_000, duration: 500, decay: 10_000 });
    shake.update(100);
    assert_eq!(shake, ScreenShake { intensity: 12_000, duration: 400, decay: 10_000 });
    shake.update(400);
    assert_eq!(shake, ScreenShake { intensity: 8000, duration: 0, decay: 10_000 });
    shake.update(1);
    assert_eq!(shake.intensity, 0);
    let mut sudden = ScreenShake::default();
    sudden.add(5000, 0);
    assert_eq!(sudden, ScreenShake { intensity: 5000, duration: 0, decay: u32::MAX });
    sudden.update(16);
    assert_eq!(sudden.intensity, 0);
}

#[test]
fn shaken_screen_has_an_offset_within_the_intensity() {
    let mut shake = ScreenShake::default();
    shake.add(8000, 500);
    let mut lengths = std::collections::HashSet::new();
    let mut angles = std::collections::HashSet::new();
    for _ in 0..100 {
        let offset = shake.get_offset().unwrap();
        assert!(offset.length <= 8000);
        assert!(offset.angle >= 0 && offset.angle < 6_283_185);
        lengths.insert(offset.length);
        angles.insert(offset.angle);
    }
    assert!(lengths.len() > 1 && angles.len() > 1);
}

#[test]
fn spawn_effect_event_can_be_created() {
    let event = SpawnEffectEvent {
        effect_type: EffectType::BloodSplatter,
        position: Vector { x: 100_000, y: 200_000 },
        count: 10,
    };
    assert_eq!(event.count, 10);
}

#[test]
fn hits_shake_the_screen() {
    let mut shake = ScreenShake::default();
    trigger_screen_shake_on_hit(&mut shake);
    assert_eq!(shake, ScreenShake { intensity: 1500, duration: 100, decay: 15_000 });
    for _ in 0..20 {
        trigger_screen_shake_on_hit(&mut shake);
    }
    assert_eq!(shake.intensity, 20_000);
}

#[test]
fn effects_scatter_by_their_kind() {
    assert_eq!(
        scatter(EffectType::BloodSplatter, 8),
        Scatter::Random { count: 8, low: 50_000, high: 150_000 }
    );
    assert_eq!(
        scatter(EffectType::Explosion, 12),
        Scatter::Random { count: 12, low: 100_000, high: 300_000 }
    );
    assert_eq!(scatter(EffectType::MuzzleFlash, 9), Scatter::Still);
    assert_eq!(
        scatter(EffectType::BulletImpact, 3),
        Scatter::Random { count: 3, low: 30_000, high: 80_000 }
    );
    assert_eq!(
        scatter(EffectType::BulletImpact, 6),
        Scatter::Random { count: 5, low: 30_000, high: 80_000 }
    );
    assert_eq!(scatter(EffectType::PickupCollect, 1), Scatter::Ring { count: 8, speed: 100_000 });
    assert_eq!(scatter(EffectType::LevelUp, 1), Scatter::Ring { count: 16, speed: 150_000 });
    assert_eq!(
        scatter(EffectType::Death, 1),
        Scatter::Random { count: 15, low: 80_000, high: 200_000 }
    );
}

#[test]
fn particles_of_each_effect() {
    let velocity = Vector { x: 3000, y: -4000 };
    assert_eq!(make_particle(EffectType::BloodSplatter, velocity), Particle::blood(velocity));
    assert_eq!(make_particle(EffectType::Death, velocity), Particle::blood(velocity));
    assert_eq!(make_particle(EffectType::Explosion, velocity), Particle::explosion(velocity));
    assert_eq!(make_particle(EffectType::MuzzleFlash, velocity), Particle::muzzle_flash());
    let (effect, impact) = make_particle(EffectType::BulletImpact, velocity);
    assert_eq!(effect.effect_type, EffectType::BulletImpact);
    assert_eq!(impact, Particle::new(velocity, 200));
    let (_, pickup) = make_particle(EffectType::PickupCollect, velocity);
    assert_eq!(pickup, Particle::new(velocity, 300).with_fade(true));
    let (effect, ring) = make_particle(EffectType::LevelUp, velocity);
    assert_eq!(effect.effect_type, EffectType::LevelUp);
    assert_eq!(ring, Particle::new(velocity, 500).with_fade(true).with_scale_change(1500));
}

#[test]
fn rings_are_evenly_spaced() {
    assert_eq!(ring_turn(0, 8), 0);
    assert_eq!(ring_turn(1, 8), 785_398);
    assert_eq!(ring_turn(4, 8), 3_141_592);
    assert_eq!(ring_turn(15, 16), 5_890_485);
    assert_eq!(ring_turn(3, 0), 0);
    assert_eq!(ring_turn(u32::MAX, 1), 6_283_185 * (u32::MAX as i64));
    for _ in 0..200 {
        let (angle, speed) = draw_scatter(50_000, 150_000);
        assert!((0..6_283_185).contains(&angle));
        assert!((50_000..150_000).contains(&speed));
    }
    assert_eq!(draw_scatter(7, 7).1, 7);
    assert_eq!(draw_scatter(9, 7).1, 9);
}

#[test]
fn effects_are_set_off_with_their_counts() {
    let place = Vector { x: 100_000, y: 200_000 };
    assert_eq!(
        effect_at(EffectType::BloodSplatter, place),
        SpawnEffectEvent { effect_type: EffectType::BloodSplatter, position: place, count: 8 }
    );
    assert_eq!(effect_at(EffectType::BulletImpact, place).count, 3);
    for kind in [
        EffectType::Explosion,
        EffectType::MuzzleFlash,
        EffectType::PickupCollect,
        EffectType::LevelUp,
        EffectType::Death,
    ] {
        assert_eq!(effect_at(kind, place), SpawnEffectEvent { effect_type: kind, position: place, count: 1 });
    }
}

#[test]
fn particles_fly_fall_and_fade() {
    let (_, mut drop) = Particle::blood(Vector { x: 100_000, y: 50_000 });
    let place = drop.update(Vector { x: 1000, y: 2000 }, 100);
    assert_eq!(place, Vector { x: 11_000, y: 7_000 });
    assert_eq!(drop.velocity, Vector { x: 100_000, y: 30_000 });
    assert_eq!(drop.lifetime, 400);
    assert_eq!(drop.opacity(), 800);
    assert_eq!(drop.growth(100), 1000);
    let place = drop.update(place, 1000);
    assert_eq!(place, Vector { x: 111_000, y: 37_000 });
    assert_eq!(drop.velocity.y, -170_000);
    assert_eq!(drop.lifetime, 0);
    assert!(drop.is_expired());
    assert_eq!(drop.opacity(), 0);

    let (_, spark) = Particle::explosion(Vector { x: 0, y: 0 });
    assert_eq!(spark.growth(16), 1032);
    assert_eq!(spark.growth(0), 1000);
    let shrinking = Particle::new(Vector { x: 0, y: 0 }, 100).with_scale_change(-1500).with_fade(false);
    assert_eq!(shrinking.growth(100), 850);
    assert_eq!(shrinking.growth(1), 999);
    assert_eq!(shrinking.opacity(), 1000);
    let mut fast = Particle::new(Vector { x: i32::MAX, y: i32::MIN }, 10).with_gravity(u32::MAX);
    let far = fast.update(Vector { x: i32::MAX, y: i32::MIN }, u32::MAX);
    assert_eq!(far, Vector { x: i32::MAX, y: i32::MIN });
    assert_eq!(fast.velocity.y, i32::MIN);
}
