//! Finite-state machines whose transitions are checked either by the type
//! system (illegal pairs cannot be written) or by a total transition
//! function that routes undeclared pairs to an explicit failure state.
pub mod light;
pub mod associated;
pub mod triple;
pub mod bare;
pub mod bottle;
