pub mod explosion;
