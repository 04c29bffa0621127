//! Source-local declaration contracts: MINIMAL pragmas, closed family bodies,
//! and the boot promises a module makes about its own declarations.
pub mod families_chirho;
pub mod class_contracts_chirho;
pub mod minimal_chirho;
pub mod contracts_chirho;
