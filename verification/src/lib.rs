//! Render-batching and scene-traversal layer.
//!
//! A [`phase::Phase`] accumulates fully resolved draw objects for the entities
//! it applies to, memoizes the compilation of each distinct technique essence,
//! orders the queue by a configurable criterion and replays it against a
//! device interface. A [`scene::Scene`] drives the traversal: it resolves
//! transforms through a [`space::World`], builds per-entity view information,
//! culls, enqueues and finally flushes, returning a [`scene::Report`] of what
//! happened to every draw call.

pub mod cache;
pub mod phase;
pub mod device;
pub mod queue;
pub mod scene;
pub mod space;
pub mod technique;
