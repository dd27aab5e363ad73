//! The GPU vertex layout of interface geometry, and the conversion of the
//! interface's own vertex records into it.
//!
//! Floating-point components are carried as their IEEE-754 single-precision
//! bit patterns, so a conversion is exact by construction.

use vstd::prelude::*;

verus! {

/// Element type of the index buffer.
pub type VertexIndex = u32;

/// The vertex attributes that the interface shader reads, in binding order.
#[derive(Clone, Copy, Debug, PartialEq, Eq, Hash, Structural)]
pub enum EguiVertexSemantics {
    /// `a_pos`: position in logical pixels.
    Position,
    /// `a_tc`: normalized texture coordinates.
    TextureCoords,
    /// `a_srgba`: premultiplied sRGBA colour, one byte per channel.
    Color,
}

/// How the GPU interprets one component of an attribute.
#[derive(Clone, Copy, Debug, PartialEq, Eq, Hash, Structural)]
pub enum VertexAttribType {
    /// A single-precision float, passed through unchanged.
    Floating,
    /// An unsigned integer. When `normalized`, the shader reads the stored
    /// value divided by the largest value of the component's width.
    Unsigned { normalized: bool },
}

/// Format of one vertex attribute.
#[derive(Clone, Copy, Debug, PartialEq, Eq, Hash, Structural)]
pub struct VertexAttribDesc {
    /// Interpretation of each component.
    pub ty: VertexAttribType,
    /// Number of components, between one and four.
    pub dim: u8,
    /// Size in bytes of a single component.
    pub unit_size: usize,
}

/// One attribute of the vertex buffer: what it means and how it is stored.
#[derive(Clone, Copy, Debug, PartialEq, Eq, Hash, Structural)]
pub struct VertexBufferDesc {
    /// The attribute's meaning, which fixes its index and shader name.
    pub semantics: EguiVertexSemantics,
    /// The attribute's storage format.
    pub attrib_desc: VertexAttribDesc,
}

impl EguiVertexSemantics {
    /// Binding index of the attribute.
    pub open spec fn spec_index(self) -> nat {
        match self {
            EguiVertexSemantics::Position => 0,
            EguiVertexSemantics::TextureCoords => 1,
            EguiVertexSemantics::Color => 2,
        }
    }

    /// Name of the attribute in the shader source.
    pub open spec fn spec_name(self) -> Seq<char> {
        match self {
            EguiVertexSemantics::Position => "a_pos"@,
            EguiVertexSemantics::TextureCoords => "a_tc"@,
            EguiVertexSemantics::Color => "a_srgba"@,
        }
    }

    /// Storage format of the attribute: two floats for a position or a
    /// texture coordinate, four normalized bytes for a colour.
    pub open spec fn spec_attrib_desc(self) -> VertexAttribDesc {
        match self {
            EguiVertexSemantics::Position | EguiVertexSemantics::TextureCoords => VertexAttribDesc {
                ty: VertexAttribType::Floating,
                dim: 2,
                unit_size: 4,
            },
            EguiVertexSemantics::Color => VertexAttribDesc {
                ty: VertexAttribType::Unsigned { normalized: true },
                dim: 4,
                unit_size: 1,
            },
        }
    }

    /// Binding index of the attribute.
    pub fn index(&self) -> (i: usize)
        ensures
            i == self.spec_index(),
    {
        match self {
            EguiVertexSemantics::Position => 0,
            EguiVertexSemantics::TextureCoords => 1,
            EguiVertexSemantics::Color => 2,
        }
    }

    /// Name of the attribute in the shader source.
    pub fn name(&self) -> (n: &'static str)
        ensures
            n@ == self.spec_name(),
    {
        match self {
            EguiVertexSemantics::Position => "a_pos",
            EguiVertexSemantics::TextureCoords => "a_tc",
            EguiVertexSemantics::Color => "a_srgba",
        }
    }

    /// Storage format of the attribute.
    pub fn attrib_desc(&self) -> (d: VertexAttribDesc)
        ensures
            d == self.spec_attrib_desc(),
    {
        match self {
            EguiVertexSemantics::Position | EguiVertexSemantics::TextureCoords => VertexAttribDesc {
                ty: VertexAttribType::Floating,
                dim: 2,
                unit_size: 4,
            },
            EguiVertexSemantics::Color => VertexAttribDesc {
                ty: VertexAttribType::Unsigned { normalized: true },
                dim: 4,
                unit_size: 1,
            },
        }
    }

    /// The attribute bound at `index`, if there is one.
    pub fn from_index(index: usize) -> (s: Option<EguiVertexSemantics>)
        ensures
            index >= 3 <==> s is None,
            s matches Some(sem) ==> sem.spec_index() == index,
    {
        if index == 0 {
            Some(EguiVertexSemantics::Position)
        } else if index == 1 {
            Some(EguiVertexSemantics::TextureCoords)
        } else if index == 2 {
            Some(EguiVertexSemantics::Color)
        } else {
            None
        }
    }
}

/// A position in logical pixels: the bit patterns of its `x` and `y`.
#[derive(Clone, Copy, Debug, PartialEq, Eq, Hash)]
pub struct EguiVertexPosition {
    pub repr: [u32; 2],
}

/// A texture coordinate: the bit patterns of its `u` and `v`.
#[derive(Clone, Copy, Debug, PartialEq, Eq, Hash)]
pub struct EguiTextureCoords {
    pub repr: [u32; 2],
}

/// A premultiplied sRGBA colour: red, green, blue, alpha.
#[derive(Clone, Copy, Debug, PartialEq, Eq, Hash)]
pub struct EguiVertexColor {
    pub repr: [u8; 4],
}

impl EguiVertexPosition {
    pub fn new(repr: [u32; 2]) -> (p: Self)
        ensures
            p.repr == repr,
    {
        EguiVertexPosition { repr }
    }

    /// The attribute that a position fills.
    pub fn semantics() -> (s: EguiVertexSemantics)
        ensures
            s == EguiVertexSemantics::Position,
    {
        EguiVertexSemantics::Position
    }
}

impl EguiTextureCoords {
    pub fn new(repr: [u32; 2]) -> (t: Self)
        ensures
            t.repr == repr,
    {
        EguiTextureCoords { repr }
    }

    /// The attribute that a texture coordinate fills.
    pub fn semantics() -> (s: EguiVertexSemantics)
        ensures
            s == EguiVertexSemantics::TextureCoords,
    {
        EguiVertexSemantics::TextureCoords
    }
}

impl EguiVertexColor {
    pub fn new(repr: [u8; 4]) -> (c: Self)
        ensures
            c.repr == repr,
    {
        EguiVertexColor { repr }
    }

    /// The attribute that a colour fills.
    pub fn semantics() -> (s: EguiVertexSemantics)
        ensures
            s == EguiVertexSemantics::Color,
    {
        EguiVertexSemantics::Color
    }
}

/// A vertex as the interface's tessellator emits it.
#[derive(Clone, Copy, Debug, PartialEq, Eq, Hash)]
pub struct PaintVertex {
    /// Bit patterns of the position's `x` and `y`, in logical pixels.
    pub pos: [u32; 2],
    /// Bit patterns of the texture coordinate's `u` and `v`.
    pub uv: [u32; 2],
    /// Premultiplied sRGBA colour: red, green, blue, alpha.
    pub color: [u8; 4],
}

/// A vertex in the layout that the GPU reads.
#[derive(Clone, Copy, Debug, PartialEq, Eq, Hash)]
pub struct EguiVertex {
    pub position: EguiVertexPosition,
    pub tc: EguiTextureCoords,
    pub srgba: EguiVertexColor,
}

/// The GPU vertex that stands for `v`: every component is carried over
/// unchanged and in place.
pub open spec fn adapted(v: PaintVertex) -> EguiVertex {
    EguiVertex {
        position: EguiVertexPosition { repr: v.pos },
        tc: EguiTextureCoords { repr: v.uv },
        srgba: EguiVertexColor { repr: v.color },
    }
}

/// The tessellator vertex that `e` stands for.
pub open spec fn restored(e: EguiVertex) -> PaintVertex {
    PaintVertex { pos: e.position.repr, uv: e.tc.repr, color: e.srgba.repr }
}

impl EguiVertex {
    pub fn new(position: EguiVertexPosition, tc: EguiTextureCoords, srgba: EguiVertexColor) -> (v:
        Self)
        ensures
            v.position == position,
            v.tc == tc,
            v.srgba == srgba,
    {
        EguiVertex { position, tc, srgba }
    }

    /// Converts one tessellator vertex into the GPU layout.
    pub fn adapt(v: &PaintVertex) -> (e: Self)
        ensures
            e == adapted(*v),
    {
        EguiVertex {
            position: EguiVertexPosition::new(v.pos),
            tc: EguiTextureCoords::new(v.uv),
            srgba: EguiVertexColor::new(v.color),
        }
    }

    /// Number of attributes in a vertex.
    pub fn attr_count() -> (n: usize)
        ensures
            n == 3,
    {
        3
    }

    /// The attributes of the vertex buffer, in binding order.
    pub fn vertex_desc() -> (d: Vec<VertexBufferDesc>)
        ensures
            d@ == vertex_layout(),
    {
        let mut d: Vec<VertexBufferDesc> = Vec::new();
        d.push(buffer_desc(EguiVertexSemantics::Position));
        d.push(buffer_desc(EguiVertexSemantics::TextureCoords));
        d.push(buffer_desc(EguiVertexSemantics::Color));
        assert(d@ =~= vertex_layout());
        d
    }
}

/// The buffer attribute that carries `semantics`.
pub open spec fn spec_buffer_desc(semantics: EguiVertexSemantics) -> VertexBufferDesc {
    VertexBufferDesc { semantics, attrib_desc: semantics.spec_attrib_desc() }
}

/// The layout of a vertex: position, texture coordinate, colour.
pub open spec fn vertex_layout() -> Seq<VertexBufferDesc> {
    seq![
        spec_buffer_desc(EguiVertexSemantics::Position),
        spec_buffer_desc(EguiVertexSemantics::TextureCoords),
        spec_buffer_desc(EguiVertexSemantics::Color),
    ]
}

/// The buffer attribute that carries `semantics`.
pub fn buffer_desc(semantics: EguiVertexSemantics) -> (d: VertexBufferDesc)
    ensures
        d == spec_buffer_desc(semantics),
{
    VertexBufferDesc { semantics, attrib_desc: semantics.attrib_desc() }
}

/// Conversion keeps the position, the texture coordinate and the four colour
/// channels, each in its place.
pub proof fn lemma_adapt_preserves(v: PaintVertex)
    ensures
        adapted(v).position.repr == v.pos,
        adapted(v).tc.repr == v.uv,
        adapted(v).srgba.repr == v.color,
        forall|c: int| 0 <= c < 4 ==> adapted(v).srgba.repr[c] == v.color[c],
{
}

/// Conversion is one-to-one: two tessellator vertices that convert to the
/// same GPU vertex are the same vertex.
pub proof fn lemma_adapt_injective(a: PaintVertex, b: PaintVertex)
    requires
        adapted(a) == adapted(b),
    ensures
        a == b,
{
    assert(restored(adapted(a)) == a);
    assert(restored(adapted(b)) == b);
}

/// Conversion is onto, with `restored` as its inverse on both sides.
pub proof fn lemma_adapt_inverse(v: PaintVertex, e: EguiVertex)
    ensures
        restored(adapted(v)) == v,
        adapted(restored(e)) == e,
{
}

/// The colour attribute is stored as four normalized unsigned bytes, so the
/// shader reads each channel as its byte divided by 255.
pub proof fn lemma_color_is_normalized()
    ensures
        vertex_layout()[2].semantics == EguiVertexSemantics::Color,
        vertex_layout()[2].attrib_desc.ty == (VertexAttribType::Unsigned { normalized: true }),
        vertex_layout()[2].attrib_desc.dim == 4,
        vertex_layout()[2].attrib_desc.unit_size == 1,
{
}

} // verus!
