//! The rules of a top-down arcade shooter, with combat at the centre: weapon
//! state, firing, projectile flight, steering, collision, and the effects
//! that a hit sets off ([`weapons`]). Around it stand the perks, bonuses and
//! items that change what a shot does ([`perks`], [`bonuses`], [`items`]),
//! the creatures that are shot at ([`creatures`]), the player who shoots
//! ([`player`]), the quests and game modes that send the creatures
//! ([`quests`], [`survival`], [`rush`]), the states of the game
//! ([`states`]), and the numbers behind sound and effects ([`audio`],
//! [`effects`]).
//!
//! Every real-valued quantity is an integer count of thousandths: damage and
//! health in thousandths of a hit point, lengths in thousandths of a world
//! unit, durations in milliseconds, multipliers and chances in thousandths of
//! one. Angles are in millionths of a radian. Arithmetic rounds toward zero
//! and stops at the limits of its type.
//!
//! Entities are known by the 64 bits of their identifier. Chance enters
//! through two private functions: one draws an integer from a range, the
//! other shuffles the places from which a perk selection is taken. Every
//! function that decides by a roll has a counterpart that takes the roll as
//! an argument; of a shuffled selection the library states what holds of
//! every order.

pub mod audio;
pub mod bonuses;
pub mod creatures;
pub mod effects;
pub mod fixed;
pub mod geometry;
pub mod items;
pub mod perks;
pub mod player;
pub mod quests;
mod rng;
pub mod rush;
pub mod states;
pub mod survival;
pub mod weapons;
pub mod weights;
