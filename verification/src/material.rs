//! The per-frame update of a material's uniform block.
//!
//! A prepared material owns one GPU resource per binding. Its texture view
//! and its sampler come first, in the order of the fields that declare them;
//! the buffer that holds the merged uniform fields comes last.

use vstd::prelude::*;

verus! {

/// The kind of GPU resource behind one binding of a prepared material.
#[derive(Clone, Copy, Debug, PartialEq, Eq, Structural)]
pub enum BindingKind {
    Buffer,
    TextureView,
    Sampler,
}

/// Position of the uniform block among the bindings of a prepared material.
pub const UNIFORM_BINDING: usize = 2;

/// Byte offset in the uniform buffer at which the per-frame data starts.
pub const UNIFORM_OFFSET: u64 = 0;

/// What one frame does to the uniform block of one material.
#[derive(Clone, Copy, Debug, PartialEq, Eq, Structural)]
pub enum UniformUpdate {
    /// Nothing is written.
    Skip,
    /// The frame's data replaces the contents of the buffer at position
    /// `binding`, starting at byte `offset`.
    Write { binding: usize, offset: u64 },
}

/// The bindings of a material as a sequence of kinds, `None` for a material
/// that is not prepared yet.
pub open spec fn kinds_of(prepared: Option<&Vec<BindingKind>>) -> Option<Seq<BindingKind>> {
    match prepared {
        Some(bindings) => Some(bindings@),
        None => None,
    }
}

/// A material can be updated when it is not prepared, or when it has a
/// binding at the position of the uniform block.
pub open spec fn updatable(prepared: Option<Seq<BindingKind>>) -> bool {
    prepared matches Some(kinds) ==> kinds.len() > UNIFORM_BINDING
}

/// The update that a frame owes a material: a write at the start of the
/// uniform block where the material is prepared and the binding at that
/// position is a buffer, nothing otherwise.
pub open spec fn update_for(prepared: Option<Seq<BindingKind>>) -> UniformUpdate {
    match prepared {
        Some(kinds) => if kinds[UNIFORM_BINDING as int] is Buffer {
            UniformUpdate::Write { binding: UNIFORM_BINDING, offset: UNIFORM_OFFSET }
        } else {
            UniformUpdate::Skip
        },
        None => UniformUpdate::Skip,
    }
}

/// Decides what a frame writes for one material, from the kinds of its
/// bindings (`None` while the material is not prepared).
pub fn uniform_update(prepared: Option<&Vec<BindingKind>>) -> (update: UniformUpdate)
    requires
        updatable(kinds_of(prepared)),
    ensures
        update == update_for(kinds_of(prepared)),
{
    match prepared {
        Some(bindings) => {
            match bindings[UNIFORM_BINDING] {
                BindingKind::Buffer => UniformUpdate::Write {
                    binding: UNIFORM_BINDING,
                    offset: UNIFORM_OFFSET,
                },
                _ => UniformUpdate::Skip,
            }
        },
        None => UniformUpdate::Skip,
    }
}

} // verus!
