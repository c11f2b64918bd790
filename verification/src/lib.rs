//! Document history, fold-sequence bookkeeping and the integer-valued checks of an
//! origami design tool, with their behaviour stated and proved.
pub mod model;
pub mod text;
pub mod steps;
pub mod kernel;
pub mod edits;
pub mod store;
pub mod schema;
pub mod fold_target;
pub mod surface;
pub mod prng;
pub mod fixture;
pub mod laws;
pub mod requests;
pub mod replay_check;
pub mod top_surface;
pub mod poses;
pub mod folding;
pub mod frames;
pub mod replay;
pub mod crease_only;
