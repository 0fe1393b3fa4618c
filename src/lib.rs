//! Discrete core of a pseudo-3D kart racer: input state, menus, track
//! bitmaps and surface overlays, and the kart's knockout, powerup and lap
//! state machine.
pub mod bitmap;
pub mod display;
pub mod hazards;
pub mod input;
pub mod kart;
pub mod level;
pub mod menu;
pub mod sprite;
