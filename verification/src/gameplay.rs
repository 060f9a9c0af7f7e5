pub mod angle;
pub mod bullet_pool;
pub mod bullet_types;
pub mod enemy_manager;
pub mod enemy_types;
pub mod extra;
pub mod input;
pub mod level;
pub mod number;
pub mod particle_manager;
pub mod particle_types;
pub mod player;
pub mod pool;
pub mod random;
pub mod table;
pub mod utils;
pub mod world;
