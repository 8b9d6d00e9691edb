//! Rewrites the `registry` field of selected dependency entries across the
//! members of a workspace, as a set of verified decisions over a plain-value
//! model of the manifests.
use vstd::prelude::*;

pub mod keys;
pub mod manifest;
pub mod mutator;
pub mod set_registry;
pub mod workspace;
