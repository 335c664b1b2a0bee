//! Orchestration core of a physically-based sky renderer.
//!
//! The library models and verifies the host-side logic of a multi-stage GPU
//! compute pipeline: the fixed atmosphere-parameter binding contract, the
//! table of persistent textures, the per-stage pipeline-compilation state
//! machine, the commands each stage records (dispatch grids, atlas-to-cubemap
//! face copies, the aerial-perspective draw), and the fixed-order scheduler
//! that walks the stage dependency graph once per frame.
//!
//! Device kernels themselves (ray marching per texel) are outside the model:
//! a stage only decides *what* to record, and an embedding runtime submits
//! the recorded commands to a GPU.

pub mod binding;
pub mod ops;
pub mod params;
pub mod registry;
pub mod resources;
pub mod scheduler;
pub mod stages;
