//! Bind groups: layouts declaring what each binding slot expects, the
//! resources supplied against them, and the validation that pairs the
//! two — a mismatch is a configuration error caught before any frame.

use vstd::prelude::*;

verus! {

/// Which shader stages see a binding.
#[derive(Clone, Copy, Debug, PartialEq, Eq, Structural)]
pub enum ShaderVisibility {
    Vertex,
    Fragment,
    VertexAndFragment,
}

/// What kind of resource a binding slot expects.
#[derive(Clone, Copy, Debug, PartialEq, Eq, Structural)]
pub enum BindingType {
    Texture { multisampled: bool, filterable: bool },
    Sampler { filtering: bool },
    UniformBuffer,
}

/// The kind of concrete resource supplied for a slot. The handles
/// themselves live outside this crate; validation needs only the kind.
#[derive(Clone, Copy, Debug, PartialEq, Eq, Structural)]
pub enum ResourceKind {
    TextureView,
    Sampler,
    Buffer,
}

/// One slot of a bind group layout.
#[derive(Clone, Copy, Debug, PartialEq, Eq, Structural)]
pub struct BindGroupLayoutEntry {
    pub binding: u32,
    pub visibility: ShaderVisibility,
    pub ty: BindingType,
}

/// An ordered list of binding slots, as a pipeline declares them.
#[derive(Debug, PartialEq, Eq)]
pub struct BindGroupLayout {
    pub entries: Vec<BindGroupLayoutEntry>,
}

/// One resource supplied against a layout slot.
#[derive(Clone, Copy, Debug, PartialEq, Eq, Structural)]
pub struct BindGroupEntry {
    pub binding: u32,
    pub resource: ResourceKind,
}

/// A resource of this kind can fill a slot of this type.
pub open spec fn binding_accepts(ty: BindingType, resource: ResourceKind) -> bool {
    match (ty, resource) {
        (BindingType::Texture { .. }, ResourceKind::TextureView) => true,
        (BindingType::Sampler { .. }, ResourceKind::Sampler) => true,
        (BindingType::UniformBuffer, ResourceKind::Buffer) => true,
        _ => false,
    }
}

/// Slot `j` of `entries` fills slot `j` of `layout`: same binding
/// number, and a resource of the kind the slot expects.
pub open spec fn slot_ok(
    layout: Seq<BindGroupLayoutEntry>,
    entries: Seq<BindGroupEntry>,
    j: int,
) -> bool {
    entries[j].binding == layout[j].binding && binding_accepts(layout[j].ty, entries[j].resource)
}

#[derive(Clone, Copy, Debug, PartialEq, Eq, Structural)]
pub enum BindError {
    CountMismatch,
    SlotMismatch,
    ResourceMismatch,
}

/// The first defect, scanning the slots in order, when pairing
/// `entries` against `layout` from position `i` on: a slot number that
/// differs, or a resource of the wrong kind.
pub open spec fn first_defect(
    layout: Seq<BindGroupLayoutEntry>,
    entries: Seq<BindGroupEntry>,
    i: int,
) -> Option<BindError>
    recommends
        layout.len() == entries.len(),
        0 <= i <= layout.len(),
    decreases layout.len() - i,
{
    if i < 0 || i >= layout.len() {
        None
    } else if entries[i].binding != layout[i].binding {
        Some(BindError::SlotMismatch)
    } else if !binding_accepts(layout[i].ty, entries[i].resource) {
        Some(BindError::ResourceMismatch)
    } else {
        first_defect(layout, entries, i + 1)
    }
}

/// A defect-free pairing is exactly one where every slot lines up.
pub proof fn lemma_first_defect_none(
    layout: Seq<BindGroupLayoutEntry>,
    entries: Seq<BindGroupEntry>,
    i: int,
)
    requires
        layout.len() == entries.len(),
        0 <= i <= layout.len(),
    ensures
        first_defect(layout, entries, i) is None <==> forall|j: int|
            i <= j < layout.len() ==> #[trigger] slot_ok(layout, entries, j),
    decreases layout.len() - i,
{
    if i < layout.len() {
        lemma_first_defect_none(layout, entries, i + 1);
        if first_defect(layout, entries, i) is None {
            assert(slot_ok(layout, entries, i));
        } else if forall|j: int| i <= j < layout.len() ==> #[trigger] slot_ok(layout, entries, j) {
            assert(slot_ok(layout, entries, i));
            assert(first_defect(layout, entries, i) is None);
        }
    }
}

/// An immutable association between a layout and resources that were
/// checked against it, slot by slot.
#[derive(Debug, PartialEq, Eq)]
pub struct BindGroup {
    pub layout: BindGroupLayout,
    pub entries: Vec<BindGroupEntry>,
}

impl BindGroup {
    /// Slot `i` of the group fills slot `i` of the layout with a
    /// resource of the right kind.
    pub open spec fn wf(self) -> bool {
        &&& self.layout.entries@.len() == self.entries@.len()
        &&& forall|j: int|
            0 <= j < self.entries@.len() ==> #[trigger] slot_ok(
                self.layout.entries@,
                self.entries@,
                j,
            )
    }

    /// Pair resources against a layout. Succeeds exactly when the counts
    /// agree and every slot gets a matching resource; the first defect,
    /// scanning in order, names the error.
    pub fn new(layout: BindGroupLayout, entries: Vec<BindGroupEntry>) -> (r: Result<
        BindGroup,
        BindError,
    >)
        ensures
            layout.entries@.len() != entries@.len() ==> r == Err::<BindGroup, BindError>(
                BindError::CountMismatch,
            ),
            layout.entries@.len() == entries@.len() ==> match first_defect(
                layout.entries@,
                entries@,
                0,
            ) {
                Some(e) => r == Err::<BindGroup, BindError>(e),
                None => r matches Ok(g) && g.layout.entries@ == layout.entries@ && g.entries@
                    == entries@ && g.wf(),
            },
    {
        if layout.entries.len() != entries.len() {
            return Err(BindError::CountMismatch);
        }
        let n = layout.entries.len();
        let mut i: usize = 0;
        while i < n
            invariant
                layout.entries@.len() == entries@.len(),
                n == layout.entries@.len(),
                0 <= i <= n,
                first_defect(layout.entries@, entries@, 0) == first_defect(
                    layout.entries@,
                    entries@,
                    i as int,
                ),
            decreases n - i,
        {
            let le = layout.entries[i];
            let be = entries[i];
            if be.binding != le.binding {
                return Err(BindError::SlotMismatch);
            }
            let ok = match (le.ty, be.resource) {
                (BindingType::Texture { .. }, ResourceKind::TextureView) => true,
                (BindingType::Sampler { .. }, ResourceKind::Sampler) => true,
                (BindingType::UniformBuffer, ResourceKind::Buffer) => true,
                _ => false,
            };
            if !ok {
                return Err(BindError::ResourceMismatch);
            }
            i = i + 1;
        }
        proof {
            lemma_first_defect_none(layout.entries@, entries@, 0);
        }
        Ok(BindGroup { layout, entries })
    }
}

/// The material bind group's layout: a filterable two-dimensional
/// texture at binding 0 and its filtering sampler at binding 1, both
/// visible to the fragment stage.
pub fn texture_bind_group_layout() -> (r: BindGroupLayout)
    ensures
        r.entries@.len() == 2,
        r.entries@[0] == (BindGroupLayoutEntry {
            binding: 0,
            visibility: ShaderVisibility::Fragment,
            ty: BindingType::Texture { multisampled: false, filterable: true },
        }),
        r.entries@[1] == (BindGroupLayoutEntry {
            binding: 1,
            visibility: ShaderVisibility::Fragment,
            ty: BindingType::Sampler { filtering: true },
        }),
{
    let entries: Vec<BindGroupLayoutEntry> = vec![
        BindGroupLayoutEntry {
            binding: 0,
            visibility: ShaderVisibility::Fragment,
            ty: BindingType::Texture { multisampled: false, filterable: true },
        },
        BindGroupLayoutEntry {
            binding: 1,
            visibility: ShaderVisibility::Fragment,
            ty: BindingType::Sampler { filtering: true },
        },
    ];
    BindGroupLayout { entries }
}

/// The camera bind group's layout: one uniform buffer at binding 0,
/// visible to the vertex stage.
pub fn camera_bind_group_layout() -> (r: BindGroupLayout)
    ensures
        r.entries@.len() == 1,
        r.entries@[0] == (BindGroupLayoutEntry {
            binding: 0,
            visibility: ShaderVisibility::Vertex,
            ty: BindingType::UniformBuffer,
        }),
{
    let entries: Vec<BindGroupLayoutEntry> = vec![
        BindGroupLayoutEntry {
            binding: 0,
            visibility: ShaderVisibility::Vertex,
            ty: BindingType::UniformBuffer,
        },
    ];
    BindGroupLayout { entries }
}

} // verus!
