//! Interaction engine of a notch overlay: screen geometry, window sizing,
//! hover detection with hysteresis and the window effects it calls for.
//! Beside it stand the overlay's smaller rules: the media players' report,
//! base64 encoding, caches, haptic patterns and the plugin folder checks.

pub mod geometry;
pub mod settings;
pub mod layout;
pub mod hover;
pub mod controller;
pub mod encoding;
pub mod media;
pub mod calendar;
pub mod haptics;
pub mod plugins;
pub mod files;
pub mod widgets;
pub mod player;
