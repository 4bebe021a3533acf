//! The device boundary, modelled at its interface: a binding context that
//! materializes batches, and a renderer that accepts ordered draw calls.

use vstd::prelude::*;
use crate::space::{Mesh, Slice, Transform};

verus! {

/// Per-instance shader parameter block: the data a technique patches on every
/// enqueue without recompiling (here: the material tag and the transform the
/// shader needs).
#[derive(Clone, Copy, PartialEq, Eq, Structural, Debug)]
pub struct Params {
    pub material: u32,
    pub mvp: Transform,
}

/// A batch handle: the device-bound (program, mesh, pipeline state) triple
/// that a draw object submits against.
#[derive(Clone, Copy, PartialEq, Eq, Structural, Debug)]
pub struct Batch {
    pub program: u64,
    pub mesh_key: u64,
    pub state: u64,
}

/// Device-side resource binding failed.
#[derive(Clone, Copy, PartialEq, Eq, Structural, Debug)]
pub enum BatchError {
    /// The phase's technique does not apply to the entity: `enqueue` was
    /// called without a passing `test` first.
    NotApplicable,
    /// The mesh carries more vertex attributes than the context can bind.
    TooManyAttributes(usize),
}

/// The device rejected a draw call at submission time.
#[derive(Clone, Copy, PartialEq, Eq, Structural, Debug)]
pub enum FlushError {
    /// The geometry slice reaches past the renderer's bound.
    OutOfBounds(u32),
}

/// A frame target that draw calls are submitted against.
#[derive(Clone, Copy, PartialEq, Eq, Structural, Debug)]
pub struct Frame {
    pub id: u64,
}

/// A fully bindable draw call, ready for submission.
#[derive(Clone, Copy, PartialEq, Eq, Structural, Debug)]
pub struct DrawCall {
    pub batch: Batch,
    pub slice: Slice,
    pub params: Params,
}

/// One submission the renderer has accepted.
#[derive(Clone, Copy, PartialEq, Eq, Structural, Debug)]
pub struct Submission {
    pub call: DrawCall,
    pub frame: u64,
}

/// The batch-binding context: a pure resource binder with a fixed capacity
/// for vertex attributes.
#[derive(Clone, Copy, PartialEq, Eq, Structural, Debug)]
pub struct Context {
    pub max_attributes: u32,
}

impl Context {
    pub fn new(max_attributes: u32) -> (r: Context)
        ensures
            r.max_attributes == max_attributes,
    {
        Context { max_attributes }
    }

    /// The identity the context gives a mesh: its topology class and its
    /// attribute count.
    pub open spec fn spec_mesh_key(topology: u32, attr_count: int) -> u64 {
        (((topology as u64) << 32) | ((attr_count % 0x1_0000_0000) as u64)) as u64
    }

    /// What binding a (program, mesh, state) triple yields: a batch, unless
    /// the mesh has more attributes than the context can bind.
    pub open spec fn spec_make_batch(
        self,
        program: u64,
        topology: u32,
        attr_count: int,
        state: u64,
    ) -> Result<Batch, BatchError> {
        if attr_count > self.max_attributes {
            Err(BatchError::TooManyAttributes(attr_count as usize))
        } else {
            Ok(
                Batch {
                    program,
                    mesh_key: Context::spec_mesh_key(topology, attr_count),
                    state,
                },
            )
        }
    }

    /// Materialize a batch from a program, a mesh description and a pipeline
    /// state: a pure resource-binding operation.
    pub fn make_batch(&self, program: u64, mesh: &Mesh, state: u64) -> (r: Result<
        Batch,
        BatchError,
    >)
        ensures
            r == self.spec_make_batch(
                program,
                mesh.topology,
                mesh.attributes@.len() as int,
                state,
            ),
    {
        let count = mesh.attributes.len();
        if count > self.max_attributes as usize {
            Err(BatchError::TooManyAttributes(count))
        } else {
            let key = ((mesh.topology as u64) << 32) | (count as u64);
            proof {
                assert(count as int % 0x1_0000_0000 == count as int);
            }
            Ok(Batch { program, mesh_key: key, state })
        }
    }

    /// Combine a batch, a slice and parameters into a bindable draw call.
    pub fn bind(&self, batch: &Batch, slice: &Slice, params: &Params) -> (r: DrawCall)
        ensures
            r == (DrawCall { batch: *batch, slice: *slice, params: *params }),
    {
        DrawCall { batch: *batch, slice: *slice, params: *params }
    }
}

/// The submission sink: accepts draw calls in order and records them, and
/// rejects a call whose slice reaches past the renderer's bound.
#[derive(Debug)]
pub struct Renderer {
    pub bound: u32,
    pub submitted: Vec<Submission>,
}

impl Renderer {
    pub fn new(bound: u32) -> (r: Renderer)
        ensures
            r.bound == bound,
            r.submitted@ == Seq::<Submission>::empty(),
    {
        Renderer { bound, submitted: Vec::new() }
    }

    /// Submit one draw call against a frame target.
    pub fn draw(&mut self, call: &DrawCall, frame: &Frame) -> (r: Result<(), FlushError>)
        ensures
            final(self).bound == old(self).bound,
            call.slice.end <= old(self).bound ==> {
                &&& r == Ok::<(), FlushError>(())
                &&& final(self).submitted@ == old(self).submitted@.push(
                    Submission { call: *call, frame: frame.id },
                )
            },
            call.slice.end > old(self).bound ==> {
                &&& r == Err::<(), FlushError>(FlushError::OutOfBounds(call.slice.end))
                &&& final(self).submitted@ == old(self).submitted@
            },
    {
        if call.slice.end > self.bound {
            Err(FlushError::OutOfBounds(call.slice.end))
        } else {
            self.submitted.push(Submission { call: *call, frame: frame.id });
            Ok(())
        }
    }
}

/// A render stream: the submission sink together with the frame target it
/// draws into.
#[derive(Debug)]
pub struct Stream {
    pub renderer: Renderer,
    pub frame: Frame,
}

} // verus!
