//! A first-person camera controller over exact fixed-point arithmetic.
//!
//! The controller turns pressed-key state and pointer deltas into a camera
//! pose (position, yaw, pitch). All of its arithmetic is carried out on
//! [`fixed::Fx`], a fixed-point scalar, so every transition is stated and
//! proved exactly; the host supplies the sine and cosine of the current yaw,
//! which is the one quantity the core does not compute itself.

pub mod actions;
pub mod first_person;
pub mod fixed;

pub use actions::Action;
pub use actions::Actions;
pub use first_person::FirstPerson;
pub use first_person::FirstPersonSettings;
pub use first_person::Pose;
pub use first_person::Vec3;
pub use fixed::Fx;
pub use fixed::FX_SCALE;
