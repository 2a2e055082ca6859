use vstd::prelude::*;

verus! {

/// How one vertex attribute is laid out: its number of 32-bit components and
/// whether its data is normalised when read.
#[derive(Debug, Clone, Copy, PartialEq, Eq, Structural)]
pub struct VertexAttrib {
    pub size: u32,
    pub normalized: bool,
}

struct NamedAttrib {
    name: String,
    attrib: VertexAttrib,
}

/// Bytes taken by the attributes of `s`: four for each component.
pub open spec fn bytes_of(s: Seq<(Seq<char>, VertexAttrib)>) -> int
    decreases s.len(),
{
    if s.len() == 0 {
        0
    } else {
        bytes_of(s.drop_last()) + 4 * s.last().1.size
    }
}

/// No attribute name occurs twice.
pub open spec fn unique_names(s: Seq<(Seq<char>, VertexAttrib)>) -> bool {
    forall|i: int, j: int| 0 <= i < j < s.len() ==> s[i].0 != s[j].0
}

pub open spec fn has_name(s: Seq<(Seq<char>, VertexAttrib)>, name: Seq<char>) -> bool {
    exists|i: int| 0 <= i < s.len() && s[i].0 == name
}

/// The bytes of a prefix grow one attribute at a time.
pub proof fn lemma_bytes_take_step(s: Seq<(Seq<char>, VertexAttrib)>, i: int)
    requires
        0 <= i < s.len(),
    ensures
        bytes_of(s.take(i + 1)) == bytes_of(s.take(i)) + 4 * s[i].1.size,
{
    assert(s.take(i + 1).drop_last() =~= s.take(i));
}

/// A prefix never takes more bytes than the whole.
pub proof fn lemma_bytes_take_le(s: Seq<(Seq<char>, VertexAttrib)>, k: int)
    requires
        0 <= k <= s.len(),
    ensures
        bytes_of(s.take(k)) <= bytes_of(s),
    decreases s.len(),
{
    if k == s.len() {
        assert(s.take(k) =~= s);
    } else {
        assert(s.drop_last().take(k) =~= s.take(k));
        lemma_bytes_take_le(s.drop_last(), k);
    }
}

/// Where one attribute sits in an interleaved vertex: its name, layout and
/// byte offset from the start of the vertex.
#[derive(Debug, PartialEq, Eq)]
pub struct AttribBinding {
    pub name: String,
    pub size: u32,
    pub normalized: bool,
    pub offset: u32,
}

/// Named vertex attributes, kept in the order in which they were first added.
pub struct VertexFormat {
    attrs: Vec<NamedAttrib>,
}

impl View for VertexFormat {
    type V = Seq<(Seq<char>, VertexAttrib)>;

    closed spec fn view(&self) -> Self::V {
        self.attrs@.map_values(|a: NamedAttrib| (a.name@, a.attrib))
    }
}

impl VertexFormat {
    #[verifier::type_invariant]
    spec fn names_unique(self) -> bool {
        unique_names(self@)
    }

    /// A format with no attributes.
    pub fn new() -> (r: VertexFormat)
        ensures
            r@ == Seq::<(Seq<char>, VertexAttrib)>::empty(),
    {
        let r = VertexFormat { attrs: Vec::new() };
        assert(r@ =~= Seq::<(Seq<char>, VertexAttrib)>::empty());
        r
    }

    /// Adds the attribute `name`, or replaces its layout in place when the
    /// format already has it.
    pub fn add_attrib(&mut self, name: &str, size: u32, norm: bool)
        ensures
            unique_names(final(self)@),
            forall|i: int|
                0 <= i < old(self)@.len() && old(self)@[i].0 == name@ ==> final(self)@
                    == old(self)@.update(i, (name@, (VertexAttrib { size, normalized: norm }))),
            !has_name(old(self)@, name@) ==> final(self)@ == old(self)@.push(
                (name@, (VertexAttrib { size, normalized: norm })),
            ),
    {
        proof {
            use_type_invariant(&*self);
        }
        let key = name.to_owned();
        let attrib = VertexAttrib { size, normalized: norm };
        let mut attrs: Vec<NamedAttrib> = Vec::new();
        core::mem::swap(&mut attrs, &mut self.attrs);
        let ghost before = attrs@.map_values(|a: NamedAttrib| (a.name@, a.attrib));
        assert(before == old(self)@);
        let mut i: usize = 0;
        while i < attrs.len()
            invariant
                0 <= i <= attrs.len(),
                before == attrs@.map_values(|a: NamedAttrib| (a.name@, a.attrib)),
                unique_names(before),
                before == old(self)@,
                key@ == name@,
                attrib == (VertexAttrib { size, normalized: norm }),
                forall|j: int| 0 <= j < i ==> before[j].0 != key@,
            decreases attrs.len() - i,
        {
            if attrs[i].name == key {
                assert(before[i as int].0 == name@);
                attrs.set(i, NamedAttrib { name: key, attrib });
                proof {
                    let after = attrs@.map_values(|a: NamedAttrib| (a.name@, a.attrib));
                    assert(after =~= before.update(i as int, (name@, attrib)));
                    assert(unique_names(after)) by {
                        assert forall|p: int, q: int| 0 <= p < q < after.len() implies after[p].0
                            != after[q].0 by {
                            assert(after[p].0 == before[p].0);
                            assert(after[q].0 == before[q].0);
                        }
                    }
                }
                self.attrs = attrs;
                assert(self@ =~= before.update(i as int, (name@, attrib)));
                assert(has_name(before, name@));
                assert forall|k: int|
                    0 <= k < old(self)@.len() && old(self)@[k].0 == name@ implies self@
                        == old(self)@.update(k, (name@, (VertexAttrib { size, normalized: norm }))) by {
                    if k > i {
                        assert(before[i as int].0 != before[k].0);
                    }
                }
                return;
            }
            i += 1;
        }
        attrs.push(NamedAttrib { name: key, attrib });
        proof {
            let after = attrs@.map_values(|a: NamedAttrib| (a.name@, a.attrib));
            assert(after =~= before.push((name@, attrib)));
            assert(unique_names(after)) by {
                assert forall|p: int, q: int| 0 <= p < q < after.len() implies after[p].0
                    != after[q].0 by {
                    if q < before.len() {
                        assert(after[p] == before[p]);
                        assert(after[q] == before[q]);
                    } else {
                        assert(after[p] == before[p]);
                    }
                }
            }
        }
        self.attrs = attrs;
        assert(self@ =~= before.push((name@, attrib)));
    }

    /// Bytes of one vertex in this format, cast to `i32`: a count above
    /// `i32::MAX` wraps to a negative value.
    pub fn size(&self) -> (r: i32)
        requires
            bytes_of(self@) <= u32::MAX,
        ensures
            r == bytes_of(self@) as i32,
    {
        let mut offset: u32 = 0;
        let mut i: usize = 0;
        while i < self.attrs.len()
            invariant
                0 <= i <= self.attrs.len(),
                offset == bytes_of(self@.take(i as int)),
                bytes_of(self@) <= u32::MAX,
            decreases self.attrs.len() - i,
        {
            proof {
                lemma_bytes_take_step(self@, i as int);
                lemma_bytes_take_le(self@, i + 1);
            }
            offset = offset + 4 * self.attrs[i].attrib.size;
            i += 1;
        }
        assert(self@.take(i as int) =~= self@);
        offset as i32
    }

    /// Bytes of one vertex in this format; `None` when that is more than a
    /// `u32` holds.
    pub fn checked_size(&self) -> (r: Option<u32>)
        ensures
            r == (if bytes_of(self@) <= u32::MAX {
                Some(bytes_of(self@) as u32)
            } else {
                None::<u32>
            }),
    {
        let mut offset: u64 = 0;
        let mut i: usize = 0;
        while i < self.attrs.len()
            invariant
                0 <= i <= self.attrs.len(),
                offset == bytes_of(self@.take(i as int)),
                offset <= u32::MAX,
            decreases self.attrs.len() - i,
        {
            proof {
                lemma_bytes_take_step(self@, i as int);
            }
            offset = offset + 4 * (self.attrs[i].attrib.size as u64);
            if offset > u32::MAX as u64 {
                proof {
                    lemma_bytes_take_le(self@, i + 1);
                }
                return None;
            }
            i += 1;
        }
        assert(self@.take(i as int) =~= self@);
        Some(offset as u32)
    }

    /// Where each attribute sits in an interleaved vertex, in the order of the
    /// format; `None` when one vertex would take more bytes than a `u32` holds.
    pub fn layout(&self) -> (r: Option<Vec<AttribBinding>>)
        ensures
            r is None <==> bytes_of(self@) > u32::MAX,
            r matches Some(v) ==> {
                &&& v@.len() == self@.len()
                &&& forall|i: int|
                    #![trigger v@[i]]
                    0 <= i < v@.len() ==> {
                        &&& v@[i].name@ == self@[i].0
                        &&& v@[i].size == self@[i].1.size
                        &&& v@[i].normalized == self@[i].1.normalized
                        &&& v@[i].offset == bytes_of(self@.take(i))
                    }
            },
    {
        let mut out: Vec<AttribBinding> = Vec::new();
        let mut offset: u64 = 0;
        let mut i: usize = 0;
        while i < self.attrs.len()
            invariant
                0 <= i <= self.attrs.len(),
                offset == bytes_of(self@.take(i as int)),
                offset <= u32::MAX,
                out@.len() == i,
                forall|j: int|
                    #![trigger out@[j]]
                    0 <= j < i ==> {
                        &&& out@[j].name@ == self@[j].0
                        &&& out@[j].size == self@[j].1.size
                        &&& out@[j].normalized == self@[j].1.normalized
                        &&& out@[j].offset == bytes_of(self@.take(j))
                    },
            decreases self.attrs.len() - i,
        {
            let a = &self.attrs[i];
            out.push(
                AttribBinding {
                    name: a.name.clone(),
                    size: a.attrib.size,
                    normalized: a.attrib.normalized,
                    offset: offset as u32,
                },
            );
            proof {
                lemma_bytes_take_step(self@, i as int);
            }
            offset = offset + 4 * (a.attrib.size as u64);
            if offset > u32::MAX as u64 {
                proof {
                    lemma_bytes_take_le(self@, i + 1);
                }
                return None;
            }
            i += 1;
        }
        assert(self@.take(i as int) =~= self@);
        Some(out)
    }
}

/// Vertex data that a mesh holds; each type says how its fields are laid out.
pub trait Vertex: Copy + Clone {
    fn get_format(&self) -> VertexFormat;
}

/// A write of a given number of bytes into a GPU buffer: either new storage of
/// that size, or an update of the storage already there, from its start.
#[derive(Debug, Clone, Copy, PartialEq, Eq, Structural)]
pub enum Upload {
    Allocate(u32),
    Update(u32),
}

/// The uploads that bring a mesh's buffers up to date: one for the vertices,
/// and one for the indices when the mesh is indexed.
#[derive(Debug, Clone, Copy, PartialEq, Eq, Structural)]
pub struct FlushPlan {
    pub vertices: Upload,
    pub indices: Option<Upload>,
}

/// How a mesh is drawn: through its indices, or straight from its vertices,
/// with the number of elements that the draw reads.
#[derive(Debug, Clone, Copy, PartialEq, Eq, Structural)]
pub enum DrawCall {
    Elements(usize),
    Arrays(usize),
}

/// The upload of `bytes` into a buffer whose storage holds `capacity` bytes:
/// new storage only when the data no longer fits.
pub open spec fn upload_for(bytes: int, capacity: u32) -> Upload {
    if bytes > capacity {
        Upload::Allocate(bytes as u32)
    } else {
        Upload::Update(bytes as u32)
    }
}

/// Vertices and indices kept on the CPU side of a GPU mesh, with the sizes of
/// the storage already allocated for them.
pub struct Mesh<V: Vertex> {
    format: VertexFormat,
    indexed: bool,
    vertices: Vec<V>,
    indices: Vec<u16>,
    vbo_size: u32,
    ibo_size: u32,
}

impl<V: Vertex> Mesh<V> {
    pub closed spec fn vertices_view(&self) -> Seq<V> {
        self.vertices@
    }

    pub closed spec fn indices_view(&self) -> Seq<u16> {
        self.indices@
    }

    pub closed spec fn is_indexed(&self) -> bool {
        self.indexed
    }

    pub closed spec fn format_view(&self) -> Seq<(Seq<char>, VertexAttrib)> {
        self.format@
    }

    /// Bytes of storage allocated for the vertices.
    pub closed spec fn vertex_capacity(&self) -> u32 {
        self.vbo_size
    }

    /// Bytes of storage allocated for the indices.
    pub closed spec fn index_capacity(&self) -> u32 {
        self.ibo_size
    }

    /// Bytes that the vertices take in the mesh's format.
    pub open spec fn vertex_bytes(&self) -> int {
        bytes_of(self.format_view()) * self.vertices_view().len()
    }

    /// Bytes that the indices take, two for each.
    pub open spec fn index_bytes(&self) -> int {
        2 * (self.indices_view().len() as int)
    }

    /// Whether the two meshes agree in everything but their vertices and indices.
    pub open spec fn same_setup(&self, other: &Self) -> bool {
        &&& self.format_view() == other.format_view()
        &&& self.is_indexed() == other.is_indexed()
        &&& self.vertex_capacity() == other.vertex_capacity()
        &&& self.index_capacity() == other.index_capacity()
    }

    /// An empty mesh, with no storage allocated yet.
    pub fn new(indexed: bool) -> (r: Mesh<V>)
        ensures
            r.vertices_view() == Seq::<V>::empty(),
            r.indices_view() == Seq::<u16>::empty(),
            r.format_view() == Seq::<(Seq<char>, VertexAttrib)>::empty(),
            r.is_indexed() == indexed,
            r.vertex_capacity() == 0,
            r.index_capacity() == 0,
    {
        Mesh {
            format: VertexFormat::new(),
            indexed,
            vertices: Vec::new(),
            indices: Vec::new(),
            vbo_size: 0,
            ibo_size: 0,
        }
    }

    /// Drops every vertex and index; the storage sizes stay.
    pub fn clear(&mut self)
        ensures
            final(self).vertices_view() == Seq::<V>::empty(),
            final(self).indices_view() == Seq::<u16>::empty(),
            final(self).same_setup(old(self)),
    {
        self.vertices.clear();
        self.indices.clear();
    }

    pub fn vertex_count(&self) -> (r: usize)
        ensures
            r == self.vertices_view().len(),
    {
        self.vertices.len()
    }

    pub fn index_count(&self) -> (r: usize)
        ensures
            r == self.indices_view().len(),
    {
        self.indices.len()
    }

    pub fn indexed(&self) -> (r: bool)
        ensures
            r == self.is_indexed(),
    {
        self.indexed
    }

    pub fn vertices(&self) -> (r: &[V])
        ensures
            r@ == self.vertices_view(),
    {
        self.vertices.as_slice()
    }

    pub fn indices(&self) -> (r: &[u16])
        ensures
            r@ == self.indices_view(),
    {
        self.indices.as_slice()
    }

    pub fn format(&self) -> (r: &VertexFormat)
        ensures
            r@ == self.format_view(),
    {
        &self.format
    }

    pub fn add_vertex(&mut self, v: V)
        ensures
            final(self).vertices_view() == old(self).vertices_view().push(v),
            final(self).indices_view() == old(self).indices_view(),
            final(self).same_setup(old(self)),
    {
        self.vertices.push(v);
    }

    pub fn add_index(&mut self, i: u16)
        ensures
            final(self).indices_view() == old(self).indices_view().push(i),
            final(self).vertices_view() == old(self).vertices_view(),
            final(self).same_setup(old(self)),
    {
        self.indices.push(i);
    }

    /// Appends the three corners of a triangle, in order.
    pub fn add_triangle(&mut self, i0: u16, i1: u16, i2: u16)
        ensures
            final(self).indices_view() == old(self).indices_view().push(i0).push(i1).push(i2),
            final(self).vertices_view() == old(self).vertices_view(),
            final(self).same_setup(old(self)),
    {
        self.indices.push(i0);
        self.indices.push(i1);
        self.indices.push(i2);
    }

    /// Decides how the mesh's buffers are brought up to date, and records the
    /// storage that this allocates. `None`, with the mesh unchanged, when a
    /// byte size does not fit in a `u32`.
    pub fn plan_flush(&mut self) -> (r: Option<FlushPlan>)
        ensures
            r is None <==> (bytes_of(old(self).format_view()) > u32::MAX || old(self).vertex_bytes()
                > u32::MAX || (old(self).is_indexed() && old(self).index_bytes() > u32::MAX)),
            r is None ==> *final(self) == *old(self),
            r matches Some(p) ==> {
                &&& p.vertices == upload_for(old(self).vertex_bytes(), old(self).vertex_capacity())
                &&& final(self).vertex_capacity() == (if old(self).vertex_bytes()
                    > old(self).vertex_capacity() {
                    old(self).vertex_bytes() as u32
                } else {
                    old(self).vertex_capacity()
                })
                &&& p.indices == (if old(self).is_indexed() {
                    Some(upload_for(old(self).index_bytes(), old(self).index_capacity()))
                } else {
                    None::<Upload>
                })
                &&& final(self).index_capacity() == (if old(self).is_indexed()
                    && old(self).index_bytes() > old(self).index_capacity() {
                    old(self).index_bytes() as u32
                } else {
                    old(self).index_capacity()
                })
                &&& final(self).vertices_view() == old(self).vertices_view()
                &&& final(self).indices_view() == old(self).indices_view()
                &&& final(self).format_view() == old(self).format_view()
                &&& final(self).is_indexed() == old(self).is_indexed()
            },
    {
        let stride: u32 = match self.format.checked_size() {
            Some(s) => s,
            None => {
                return None;
            },
        };
        let n: usize = self.vertices.len();
        proof {
            lemma_bytes_take_le(self.format@, 0);
            assert(self.format@.take(0) =~= Seq::<(Seq<char>, VertexAttrib)>::empty());
            assert((stride as int) * (n as int) <= 0xffff_ffff * 0xffff_ffff_ffff_ffff) by (nonlinear_arith)
                requires
                    stride <= 0xffff_ffff,
                    n <= 0xffff_ffff_ffff_ffff,
            ;
        }
        let vbytes: u128 = (stride as u128) * (n as u128);
        assert(vbytes == self.vertex_bytes());
        if vbytes > u32::MAX as u128 {
            return None;
        }
        let ibytes: u128 = 2 * (self.indices.len() as u128);
        assert(ibytes == self.index_bytes());
        if self.indexed && ibytes > u32::MAX as u128 {
            return None;
        }
        let vsize = vbytes as u32;
        let vertices = if vsize > self.vbo_size {
            self.vbo_size = vsize;
            Upload::Allocate(vsize)
        } else {
            Upload::Update(vsize)
        };
        let indices = if self.indexed {
            let esize = ibytes as u32;
            if esize > self.ibo_size {
                self.ibo_size = esize;
                Some(Upload::Allocate(esize))
            } else {
                Some(Upload::Update(esize))
            }
        } else {
            None
        };
        Some(FlushPlan { vertices, indices })
    }

    /// How the mesh is drawn: through its indices when it is indexed,
    /// otherwise from its vertices.
    pub fn draw_call(&self) -> (r: DrawCall)
        ensures
            r == (if self.is_indexed() {
                DrawCall::Elements(self.indices_view().len() as usize)
            } else {
                DrawCall::Arrays(self.vertices_view().len() as usize)
            }),
    {
        if self.indexed {
            DrawCall::Elements(self.indices.len())
        } else {
            DrawCall::Arrays(self.vertices.len())
        }
    }
}

} // verus!
