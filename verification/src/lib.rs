//! Progression engine for game entities: an experience curve, a bulk
//! advancement algorithm with multi-level carry-over, and randomized
//! bonus-stat generation and upgrading for equipment.

pub mod bignat;
pub mod character;
pub mod cmdln;
pub mod ident;
pub mod items;
pub mod rng;
pub mod stats;
pub mod xp_curve;

pub use character::Character;
pub use character::inventory::Inventory;
pub use items::Armor;
pub use items::Artifact;
pub use items::Material;
pub use xp_curve::XpCurve;
pub use xp_curve::XpCurveOption;
