pub mod boss;
pub mod crawling_pop_corn;
pub mod flying_pop_corn;
pub mod spawner;
