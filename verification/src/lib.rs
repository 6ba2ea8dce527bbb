//! Import and alias resolution for Python modules: which local name refers to
//! a given library, and which top-level assignments a later data-flow pass
//! should look at.

pub mod statement;
pub mod resolution;
pub mod laws;
pub mod syntax;
pub mod launch;
