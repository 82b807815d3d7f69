pub mod hash;
pub mod ledger;
pub mod size;
pub mod assets;
pub mod output;
pub mod min_ada;
pub mod builder;
pub mod laws;
