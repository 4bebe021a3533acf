//! The technique: the policy that decides whether a phase applies to a
//! (mesh, material) pair, compiles a draw configuration per distinct essence,
//! and patches per-instance shader parameters.

use vstd::prelude::*;
use crate::device::Params;
use crate::space::{Mesh, Transform};

verus! {

/// Per-(entity, camera) derived data: the model-view-projection transform,
/// the model-view transform and the model transform. Constructed fresh per
/// enqueue call and never cached.
#[derive(Clone, Copy, PartialEq, Eq, Structural, Debug)]
pub struct ViewInfo {
    pub mvp: Transform,
    pub view: Transform,
    pub model: Transform,
}

impl ViewInfo {
    /// Construct a new information block.
    pub fn new(mvp: Transform, view: Transform, model: Transform) -> (r: ViewInfo)
        ensures
            r == (ViewInfo { mvp, view, model }),
    {
        ViewInfo { mvp, view, model }
    }

    pub open spec fn spec_depth(self) -> i64 {
        self.mvp.z
    }

    /// The depth value used to order draw objects.
    pub fn to_depth(&self) -> (r: i64)
        ensures
            r == self.spec_depth(),
    {
        self.mvp.z
    }
}

/// The essence key for a (mesh topology class, material) pair: the opaque
/// cache key that identifies a compiled draw configuration independently of
/// per-instance transforms.
pub open spec fn spec_essence(topology: u32, material: u32) -> u64 {
    (((topology as u64) << 32) | (material as u64)) as u64
}

/// Distinct (topology class, material) pairs have distinct essences: the
/// essence identifies a compiled configuration uniquely.
pub proof fn lemma_essence_injective(t1: u32, m1: u32, t2: u32, m2: u32)
    ensures
        spec_essence(t1, m1) == spec_essence(t2, m2) ==> t1 == t2 && m1 == m2,
{
    assert((((t1 as u64) << 32) | (m1 as u64)) == (((t2 as u64) << 32) | (m2 as u64)) ==> t1
        == t2 && m1 == m2) by (bit_vector);
}

/// A technique: a closed, data-driven policy object. It applies to a material
/// when `accept_all` is set or the material is listed; it compiles every
/// accepted essence to the configured program and pipeline state, optionally
/// adding instanced vertex attributes; and it counts how often its compile
/// path ran.
#[derive(Debug)]
pub struct Technique {
    /// Apply to every material.
    pub accept_all: bool,
    /// Materials this technique applies to, when not applying to all.
    pub accepted_materials: Vec<u32>,
    /// Shader program handle every essence compiles to.
    pub program: u64,
    /// Pipeline state handle every essence compiles to.
    pub state: u64,
    /// Extra per-instance vertex attributes; empty when the technique adds
    /// none.
    pub aux_attributes: Vec<u64>,
    /// How often the compile path has run over this technique's lifetime.
    pub compile_calls: u64,
}

impl Technique {
    /// A technique that applies to every material and adds no instanced
    /// attributes.
    pub fn new(program: u64, state: u64) -> (r: Technique)
        ensures
            r.accept_all,
            r.accepted_materials@ == Seq::<u32>::empty(),
            r.program == program,
            r.state == state,
            r.aux_attributes@ == Seq::<u64>::empty(),
            r.compile_calls == 0,
    {
        Technique {
            accept_all: true,
            accepted_materials: Vec::new(),
            program,
            state,
            aux_attributes: Vec::new(),
            compile_calls: 0,
        }
    }

    pub open spec fn spec_accepts(self, material: u32) -> bool {
        self.accept_all || self.accepted_materials@.contains(material)
    }

    /// Whether this technique applies to a (mesh, material) pair, and if so,
    /// under which essence.
    pub open spec fn spec_test(self, mesh: Mesh, material: u32) -> Option<u64> {
        if self.spec_accepts(material) {
            Some(spec_essence(mesh.topology, material))
        } else {
            None
        }
    }

    /// The instanced attributes the compile path supplies, if any.
    pub open spec fn spec_aux(self) -> Option<Seq<u64>> {
        if self.aux_attributes@.len() == 0 {
            None
        } else {
            Some(self.aux_attributes@)
        }
    }

    /// Decide whether this technique applies to a (mesh, material) pair.
    /// Pure; may be called any number of times.
    pub fn test(&self, mesh: &Mesh, material: u32) -> (r: Option<u64>)
        ensures
            r == self.spec_test(*mesh, material),
    {
        let mut accepted = self.accept_all;
        if !accepted {
            let mut i: usize = 0;
            while i < self.accepted_materials.len()
                invariant
                    i <= self.accepted_materials@.len(),
                    accepted <==> self.accepted_materials@.take(i as int).contains(material),
                decreases self.accepted_materials@.len() - i,
            {
                if self.accepted_materials[i] == material {
                    accepted = true;
                }
                proof {
                    let s = self.accepted_materials@;
                    assert(s.take(i + 1).contains(material) <==> (s.take(
                        i as int,
                    ).contains(material) || s[i as int] == material)) by {
                        if s.take(i + 1).contains(material) {
                            let j = choose|j: int|
                                0 <= j < s.take(i + 1).len() && #[trigger] s.take(i + 1)[j]
                                    == material;
                            if j < i {
                                assert(s.take(i as int)[j] == material);
                            }
                        }
                        if s.take(i as int).contains(material) {
                            let j = choose|j: int|
                                0 <= j < s.take(i as int).len() && #[trigger] s.take(
                                    i as int,
                                )[j] == material;
                            assert(s.take(i + 1)[j] == material);
                        }
                        if s[i as int] == material {
                            assert(s.take(i + 1)[i as int] == material);
                        }
                    };
                }
                i += 1;
            }
            proof {
                assert(self.accepted_materials@.take(self.accepted_materials@.len() as int)
                    =~= self.accepted_materials@);
            }
        }
        if accepted {
            Some(((mesh.topology as u64) << 32) | (material as u64))
        } else {
            None
        }
    }

    /// Compile the draw configuration for an essence: the program, the base
    /// parameter block, the optional instanced mesh attributes and the
    /// pipeline state. Bumps the compile counter.
    pub fn compile(&mut self, essence: u64, view_info: ViewInfo) -> (r: (
        u64,
        Params,
        Option<Vec<u64>>,
        u64,
    ))
        requires
            old(self).compile_calls < u64::MAX,
        ensures
            final(self).accept_all == old(self).accept_all,
            final(self).accepted_materials == old(self).accepted_materials,
            final(self).program == old(self).program,
            final(self).state == old(self).state,
            final(self).aux_attributes == old(self).aux_attributes,
            final(self).compile_calls == old(self).compile_calls + 1,
            r.0 == old(self).program,
            r.1 == (Params { material: 0, mvp: view_info.mvp }),
            match r.2 {
                Some(aux) => old(self).spec_aux() == Some(aux@),
                None => old(self).spec_aux() is None,
            },
            r.3 == old(self).state,
    {
        self.compile_calls = self.compile_calls + 1;
        let aux = if self.aux_attributes.len() == 0 {
            None
        } else {
            let mut copy: Vec<u64> = Vec::new();
            let mut i: usize = 0;
            while i < self.aux_attributes.len()
                invariant
                    i <= self.aux_attributes@.len(),
                    copy@ == self.aux_attributes@.take(i as int),
                decreases self.aux_attributes@.len() - i,
            {
                copy.push(self.aux_attributes[i]);
                proof {
                    assert(self.aux_attributes@.take(i + 1).drop_last() =~= self
                        .aux_attributes@.take(i as int));
                }
                i += 1;
            }
            proof {
                assert(self.aux_attributes@.take(self.aux_attributes@.len() as int) =~= self
                    .aux_attributes@);
            }
            Some(copy)
        };
        (self.program, Params { material: 0, mvp: view_info.mvp }, aux, self.state)
    }

    /// Patch a parameter block for one instance from the material and the
    /// fresh view information, without recompiling.
    pub fn fix_params(&self, material: u32, view_info: &ViewInfo, params: &mut Params)
        ensures
            *final(params) == (Params { material, mvp: view_info.mvp }),
    {
        params.material = material;
        params.mvp = view_info.mvp;
    }
}

} // verus!
