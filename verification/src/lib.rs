//! A library for an interactive provisioning wizard: it records the
//! operator's machine-provisioning choices in a [`model::Profile`],
//! tracks which choices are currently valid against external oracle
//! lists, and renders the finished profile into a shell provisioning
//! script.

pub mod catalog;
pub mod menu;
pub mod model;
pub mod script;
pub mod validity;
