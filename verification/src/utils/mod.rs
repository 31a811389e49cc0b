pub mod calculate;
pub mod fee;
pub mod seeds;
