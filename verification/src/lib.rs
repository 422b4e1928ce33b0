pub mod arith;
pub mod defs;
pub mod grid;
pub mod pawns;
pub mod resolve;
pub mod terrain;
