//! Equipment: bonus stats, the shared progression state, and the item
//! kinds that level up through it.

pub mod bonus_stats;
pub mod gear;
pub mod armor;
pub mod artifact;
pub mod material;

pub use armor::Armor;
pub use artifact::Artifact;
pub use material::Material;
