pub mod gameplay;
