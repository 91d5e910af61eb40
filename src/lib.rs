//! Fighter states of a side-scrolling brawler.
//!
//! Each tick a fighter goes through three stages: collectors turn input, damage and health
//! into transition intents (`collect`); the intents are resolved by priority against the
//! current state, and the state's own exit rule applies (`intents`, `transition`); then the
//! current state's handler drives the animation and velocity and emits commands for the
//! entity layer (`handlers`, `attacks`, `weapons`, `items`). `fighter` bundles the stages
//! for one fighter. Every executable function carries a contract proved against its body.
pub mod attacks;
pub mod audio;
pub mod collect;
pub mod fighter;
pub mod geometry;
pub mod handlers;
pub mod intents;
pub mod items;
pub mod meta;
pub mod state;
pub mod transition;
pub mod ui;
pub mod weapons;
