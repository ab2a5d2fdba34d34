//! Compile-time binding generator: given a model of a type's public methods,
//! it emits a native-call glue layer and a managed-host stub class that stay
//! consistent by construction.

pub mod casing;
pub mod discovery;
pub mod glue_emit;
pub mod java_emit;
pub mod laws;
pub mod mapping;
pub mod model;
pub mod strutil;
pub mod testlab;
