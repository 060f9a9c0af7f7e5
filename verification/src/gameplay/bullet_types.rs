pub mod constant_velocity;
