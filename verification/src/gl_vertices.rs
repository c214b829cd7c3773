//! A mesh buffer: a growing list of vertices, a triangle list of indices
//! into it, and the layout that tells the GPU how to read one vertex.
//!
//! The buffer never talks to the GPU itself. Every operation that changes
//! it hands back a [`GpuUpdate`], the description of the upload that has to
//! follow.

use vstd::prelude::*;

pub mod vertex_attribs;

verus! {

/// The component type "single-precision number".
pub const FLOAT: u32 = 0x1406;

/// The storage mode for a buffer that is written once and drawn often.
pub const STATIC_DRAW: u32 = 0x88E4;

/// The storage mode for a buffer that will still grow.
pub const DYNAMIC_DRAW: u32 = 0x88E8;

/// `gl::FLOAT`, the constant that the OpenGL bindings give for the component
/// type of single-precision numbers. The registry they are generated from
/// lists it as `0x1406`.
#[verifier::external_body]
pub(crate) fn float_type() -> (t: u32)
    ensures
        t == FLOAT,
{
    gl::FLOAT
}

/// `gl::STATIC_DRAW`, listed by the registry as `0x88E4`.
#[verifier::external_body]
fn static_draw() -> (t: u32)
    ensures
        t == STATIC_DRAW,
{
    gl::STATIC_DRAW
}

/// `gl::DYNAMIC_DRAW`, listed by the registry as `0x88E8`.
#[verifier::external_body]
fn dynamic_draw() -> (t: u32)
    ensures
        t == DYNAMIC_DRAW,
{
    gl::DYNAMIC_DRAW
}

/// What can go wrong when a mesh buffer is read or filled.
#[derive(Clone, Copy, Debug, PartialEq, Eq, Structural)]
pub enum MeshError {
    /// A position past the end of the vertices was asked for, or an index of
    /// a batch points past the vertices of that batch.
    IndexOutOfRange,
}

/// One attribute of a vertex: what its components are, how many bytes it
/// takes and how many components it has.
#[derive(Clone, Copy, Debug, PartialEq, Eq, Structural)]
pub struct VertexAttrib {
    gl_type: u32,
    size: i32,
    components: i32,
}

impl VertexAttrib {
    pub closed spec fn spec_gl_type(self) -> u32 {
        self.gl_type
    }

    pub closed spec fn spec_size(self) -> i32 {
        self.size
    }

    pub closed spec fn spec_components(self) -> i32 {
        self.components
    }

    /// An attribute has between one and four components and a size that is
    /// not negative.
    pub open spec fn valid(self) -> bool {
        1 <= self.spec_components() <= 4 && 0 <= self.spec_size()
    }

    /// An attribute of `components` components of the type `gl_type`, which
    /// takes `size` bytes.
    pub fn new(gl_type: u32, size: i32, components: i32) -> (a: VertexAttrib)
        ensures
            a.spec_gl_type() == gl_type,
            a.spec_size() == size,
            a.spec_components() == components,
    {
        VertexAttrib { gl_type, size, components }
    }

    pub fn gl_type(&self) -> (t: u32)
        ensures
            t == self.spec_gl_type(),
    {
        self.gl_type
    }

    pub fn size(&self) -> (s: i32)
        ensures
            s == self.spec_size(),
    {
        self.size
    }

    pub fn components(&self) -> (c: i32)
        ensures
            c == self.spec_components(),
    {
        self.components
    }
}

/// The bytes of one vertex: the sizes of its attributes added up.
pub open spec fn stride_of(layout: Seq<VertexAttrib>) -> int
    decreases layout.len(),
{
    if layout.len() == 0 {
        0
    } else {
        stride_of(layout.drop_last()) + layout.last().spec_size()
    }
}

/// A layout that a mesh buffer can be made with: every attribute is valid,
/// the attributes can be numbered in `u32` and one vertex takes no more
/// bytes than `i32` holds.
pub open spec fn layout_valid(layout: Seq<VertexAttrib>) -> bool {
    &&& layout.len() <= u32::MAX
    &&& forall|i: int| 0 <= i < layout.len() ==> (#[trigger] layout[i]).valid()
    &&& stride_of(layout) <= i32::MAX
}

/// Where the GPU finds one attribute inside a vertex.
#[derive(Clone, Copy, Debug, PartialEq, Eq, Structural)]
pub struct AttribPointer {
    /// The attribute's number: its place in the layout.
    pub index: u32,
    pub components: i32,
    pub gl_type: u32,
    /// Bytes from one vertex to the next.
    pub stride: i32,
    /// Bytes from the start of a vertex to this attribute.
    pub offset: i32,
}

/// The attribute pointer of the attribute at place `i` of `layout`.
pub open spec fn pointer_at(layout: Seq<VertexAttrib>, i: int) -> AttribPointer {
    AttribPointer {
        index: i as u32,
        components: layout[i].spec_components(),
        gl_type: layout[i].spec_gl_type(),
        stride: stride_of(layout) as i32,
        offset: stride_of(layout.take(i)) as i32,
    }
}

/// The attribute pointers of a layout, one for each attribute, in order.
pub open spec fn pointers_of(layout: Seq<VertexAttrib>) -> Seq<AttribPointer> {
    Seq::new(layout.len(), |i: int| pointer_at(layout, i))
}

/// The storage mode for a buffer that has seen its last update, or has not.
pub open spec fn storage_for(last_update: bool) -> u32 {
    if last_update {
        STATIC_DRAW
    } else {
        DYNAMIC_DRAW
    }
}

/// An upload that is due: the whole of the vertices and indices is to be
/// sent to the GPU again, into storage of the given mode, and the attributes
/// are to be declared as the pointers say.
#[derive(Debug)]
pub struct GpuUpdate {
    pub storage_type: u32,
    pub pointers: Vec<AttribPointer>,
}

impl GpuUpdate {
    /// This is the upload of a buffer with the given layout.
    pub open spec fn is_for(&self, layout: Seq<VertexAttrib>, last_update: bool) -> bool {
        &&& self.storage_type == storage_for(last_update)
        &&& self.pointers@ == pointers_of(layout)
    }
}

/// One draw of an object: the object's own transform is applied first and
/// the camera's after it, and `count` indices are drawn as triangles.
#[derive(Debug)]
pub struct DrawCall<X> {
    pub object: X,
    pub camera: X,
    pub count: i32,
}

/// The indices of a batch, moved up by the number of vertices that the
/// buffer held before the batch.
pub open spec fn rebase(local: Seq<u32>, base: int) -> Seq<u32> {
    Seq::new(local.len(), |i: int| (local[i] + base) as u32)
}

/// Every index of the batch points at a vertex of the batch.
pub open spec fn indices_local(local: Seq<u32>, batch: int) -> bool {
    forall|i: int| 0 <= i < local.len() ==> (#[trigger] local[i]) < batch
}

/// The most quads that a mesh of quads can hold: six indices per quad have
/// to be counted in `i32`.
pub const MAX_QUADS: usize = 357913941;

/// The indices of a mesh made of `quads` quads of four vertices each, where
/// every quad is cut into two triangles as `pattern` says.
pub open spec fn quad_list_indices(pattern: Seq<u32>, quads: int) -> Seq<u32> {
    Seq::new((6 * quads) as nat, |i: int| (4 * (i / 6) + pattern[i % 6]) as u32)
}

/// The indices of a mesh with one more quad are those of the mesh followed
/// by the pattern, moved up past the vertices of the mesh.
pub proof fn lemma_quad_list_step(pattern: Seq<u32>, m: int)
    requires
        pattern.len() == 6,
        0 <= m < MAX_QUADS,
    ensures
        quad_list_indices(pattern, m + 1) == quad_list_indices(pattern, m) + rebase(
            pattern,
            4 * m,
        ),
{
    let a = quad_list_indices(pattern, m + 1);
    let b = quad_list_indices(pattern, m) + rebase(pattern, 4 * m);
    assert(a.len() == b.len());
    assert forall|i: int| 0 <= i < a.len() implies a[i] == b[i] by {
        if i >= 6 * m {
            assert(i / 6 == m);
            assert(i % 6 == i - 6 * m);
        }
    }
    assert(a =~= b);
}

/// What a mesh buffer holds.
pub struct Mesh<T> {
    pub vertices: Seq<T>,
    pub indices: Seq<u32>,
}

/// A mesh buffer.
pub struct VertexData<T> {
    data: Vec<T>,
    indices: Vec<u32>,
    attributes: Vec<VertexAttrib>,
    stride: i32,
}

impl<T> View for VertexData<T> {
    type V = Mesh<T>;

    closed spec fn view(&self) -> Mesh<T> {
        Mesh { vertices: self.data@, indices: self.indices@ }
    }
}

/// One more attribute adds its size to the bytes of a vertex: the offset of
/// an attribute is the offset of the one before it plus that one's size.
pub proof fn lemma_stride_take_step(layout: Seq<VertexAttrib>, i: int)
    requires
        0 <= i < layout.len(),
    ensures
        stride_of(layout.take(i + 1)) == stride_of(layout.take(i)) + layout[i].spec_size(),
{
    assert(layout.take(i + 1).drop_last() =~= layout.take(i));
}

/// In a layout of valid attributes no attribute starts before the vertex
/// does or after it ends.
pub proof fn lemma_stride_monotone(layout: Seq<VertexAttrib>, i: int)
    requires
        0 <= i <= layout.len(),
        forall|k: int| 0 <= k < layout.len() ==> (#[trigger] layout[k]).valid(),
    ensures
        0 <= stride_of(layout.take(i)) <= stride_of(layout),
    decreases layout.len() - i,
{
    if i == layout.len() {
        assert(layout.take(i) =~= layout);
        lemma_stride_nonnegative(layout);
    } else {
        lemma_stride_take_step(layout, i);
        lemma_stride_monotone(layout, i + 1);
        lemma_stride_nonnegative(layout.take(i));
    }
}

/// A vertex of valid attributes takes no less than zero bytes.
pub proof fn lemma_stride_nonnegative(layout: Seq<VertexAttrib>)
    requires
        forall|k: int| 0 <= k < layout.len() ==> (#[trigger] layout[k]).valid(),
    ensures
        0 <= stride_of(layout),
    decreases layout.len(),
{
    if layout.len() > 0 {
        lemma_stride_nonnegative(layout.drop_last());
    }
}

/// Whether a mesh buffer can be made with the layout.
pub fn is_valid_layout(attributes: &Vec<VertexAttrib>) -> (b: bool)
    ensures
        b == layout_valid(attributes@),
{
    if attributes.len() > 4294967295 {
        return false;
    }
    let mut stride: i32 = 0;
    let mut i: usize = 0;
    while i < attributes.len()
        invariant
            i <= attributes.len(),
            attributes.len() <= u32::MAX,
            forall|k: int| 0 <= k < i ==> (#[trigger] attributes@[k]).valid(),
            0 <= stride == stride_of(attributes@.take(i as int)),
        decreases attributes.len() - i,
    {
        let a: &VertexAttrib = &attributes[i];
        if !(a.components >= 1 && a.components <= 4) || a.size < 0 {
            return false;
        }
        proof {
            lemma_stride_take_step(attributes@, i as int);
        }
        if a.size > 2147483647 - stride {
            proof {
                if layout_valid(attributes@) {
                    lemma_stride_monotone(attributes@, i as int + 1);
                }
            }
            return false;
        }
        stride = stride + a.size;
        i += 1;
    }
    proof {
        assert(attributes@.take(i as int) =~= attributes@);
    }
    true
}

impl<T> VertexData<T> {
    /// The layout that the buffer was made with.
    pub closed spec fn layout(&self) -> Seq<VertexAttrib> {
        self.attributes@
    }

    /// The bytes from one vertex to the next.
    pub closed spec fn spec_stride(&self) -> int {
        self.stride as int
    }

    /// The buffer's invariant: its layout is valid and the stride is that of
    /// the layout; vertices can be numbered in `u32` and indices counted in
    /// `i32`; and every index points at a vertex of the buffer.
    pub open spec fn wf(&self) -> bool {
        &&& layout_valid(self.layout())
        &&& self.spec_stride() == stride_of(self.layout())
        &&& self@.vertices.len() <= u32::MAX
        &&& self@.indices.len() <= i32::MAX
        &&& forall|i: int|
            0 <= i < self@.indices.len() ==> (#[trigger] self@.indices[i]) < self@.vertices.len()
    }

    /// An empty buffer for vertices of the given layout.
    pub fn new(attributes: Vec<VertexAttrib>) -> (v: Self)
        requires
            layout_valid(attributes@),
        ensures
            v.wf(),
            v.layout() == attributes@,
            v@.vertices.len() == 0,
            v@.indices.len() == 0,
    {
        let mut stride: i32 = 0;
        let mut i: usize = 0;
        while i < attributes.len()
            invariant
                i <= attributes.len(),
                layout_valid(attributes@),
                stride == stride_of(attributes@.take(i as int)),
            decreases attributes.len() - i,
        {
            proof {
                lemma_stride_take_step(attributes@, i as int);
                lemma_stride_monotone(attributes@, i as int + 1);
            }
            stride = stride + attributes[i].size;
            i += 1;
        }
        proof {
            assert(attributes@.take(i as int) =~= attributes@);
        }
        VertexData { data: Vec::new(), indices: Vec::new(), attributes, stride }
    }

    /// The number of indices that a draw of the buffer's triangles covers.
    pub fn draw(&self) -> (count: i32)
        requires
            self.wf(),
        ensures
            count == self@.indices.len(),
    {
        self.indices.len() as i32
    }

    pub fn data(&self) -> (d: &Vec<T>)
        ensures
            d@ == self@.vertices,
    {
        &self.data
    }

    pub fn indices(&self) -> (d: &Vec<u32>)
        ensures
            d@ == self@.indices,
    {
        &self.indices
    }

    pub fn attributes(&self) -> (a: &Vec<VertexAttrib>)
        ensures
            a@ == self.layout(),
    {
        &self.attributes
    }

    pub fn stride(&self) -> (s: i32)
        ensures
            s == self.spec_stride(),
    {
        self.stride
    }

    /// The number of vertices.
    pub fn data_len(&self) -> (n: usize)
        ensures
            n == self@.vertices.len(),
    {
        self.data.len()
    }

    /// The vertex at `index`, if there is one.
    pub fn get_vertex(&self, index: usize) -> (r: Result<&T, MeshError>)
        ensures
            index < self@.vertices.len() ==> r == Ok::<&T, MeshError>(&self@.vertices[index as int]),
            index >= self@.vertices.len() ==> r == Err::<&T, MeshError>(MeshError::IndexOutOfRange),
    {
        if index < self.data.len() {
            Ok(&self.data[index])
        } else {
            Err(MeshError::IndexOutOfRange)
        }
    }

    /// Replaces the vertex at `index`, if there is one, and says which
    /// upload is due.
    pub fn set_vertex_data(&mut self, index: usize, data: T, last_update: bool) -> (r: Result<
        GpuUpdate,
        MeshError,
    >)
        requires
            old(self).wf(),
        ensures
            final(self).wf(),
            final(self).layout() == old(self).layout(),
            final(self)@.indices == old(self)@.indices,
            index < old(self)@.vertices.len() ==> r is Ok && r->Ok_0.is_for(
                old(self).layout(),
                last_update,
            ) && final(self)@.vertices == old(self)@.vertices.update(index as int, data),
            index >= old(self)@.vertices.len() ==> r == Err::<GpuUpdate, MeshError>(
                MeshError::IndexOutOfRange,
            ) && final(self)@.vertices == old(self)@.vertices,
    {
        if index < self.data.len() {
            self.data[index] = data;
            Ok(self.update_on_gpu(last_update))
        } else {
            Err(MeshError::IndexOutOfRange)
        }
    }

    /// The upload that brings the GPU's copy up to date: into storage for
    /// data that will not change again if this is the last update, and into
    /// storage for data that will grow otherwise.
    pub fn update_on_gpu(&self, last_update: bool) -> (update: GpuUpdate)
        requires
            self.wf(),
        ensures
            update.is_for(self.layout(), last_update),
    {
        let storage_type: u32 = if last_update {
            static_draw()
        } else {
            dynamic_draw()
        };
        let mut pointers: Vec<AttribPointer> = Vec::new();
        let mut attrib_array_i: u32 = 0;
        let mut cur_pointer_offset: i32 = 0;
        let mut k: usize = 0;
        while k < self.attributes.len()
            invariant
                self.wf(),
                k <= self.attributes.len(),
                attrib_array_i == k,
                cur_pointer_offset == stride_of(self.layout().take(k as int)),
                pointers@.len() == k,
                forall|j: int| 0 <= j < k ==> pointers@[j] == pointer_at(self.layout(), j),
            decreases self.attributes.len() - k,
        {
            let a: &VertexAttrib = &self.attributes[k];
            proof {
                lemma_stride_take_step(self.layout(), k as int);
                lemma_stride_monotone(self.layout(), k as int + 1);
            }
            pointers.push(
                AttribPointer {
                    index: attrib_array_i,
                    components: a.components,
                    gl_type: a.gl_type,
                    stride: self.stride,
                    offset: cur_pointer_offset,
                },
            );
            attrib_array_i += 1;
            cur_pointer_offset += a.size;
            k += 1;
        }
        assert(pointers@ =~= pointers_of(self.layout()));
        GpuUpdate { storage_type, pointers }
    }

    /// Appends a batch of vertices and the triangles over them.
    ///
    /// The indices of the batch count from the first vertex of the batch.
    /// They are stored moved up by the number of vertices that the buffer
    /// held before, so that each still points at its vertex. A batch with an
    /// index that points past its own vertices is refused and changes
    /// nothing. A batch that is taken leaves both arguments empty.
    pub fn append(
        &mut self,
        new_data: &mut Vec<T>,
        new_indices: &mut Vec<u32>,
        last_update: bool,
    ) -> (r: Result<GpuUpdate, MeshError>)
        requires
            old(self).wf(),
            old(self)@.vertices.len() + old(new_data)@.len() <= u32::MAX,
            old(self)@.indices.len() + old(new_indices)@.len() <= i32::MAX,
        ensures
            final(self).wf(),
            final(self).layout() == old(self).layout(),
            indices_local(old(new_indices)@, old(new_data)@.len() as int) ==> {
                &&& r is Ok
                &&& r->Ok_0.is_for(old(self).layout(), last_update)
                &&& final(self)@.vertices == old(self)@.vertices + old(new_data)@
                &&& final(self)@.indices == old(self)@.indices + rebase(
                    old(new_indices)@,
                    old(self)@.vertices.len() as int,
                )
                &&& final(new_data)@.len() == 0
                &&& final(new_indices)@.len() == 0
            },
            !indices_local(old(new_indices)@, old(new_data)@.len() as int) ==> {
                &&& r == Err::<GpuUpdate, MeshError>(MeshError::IndexOutOfRange)
                &&& final(self)@ == old(self)@
                &&& final(new_data)@ == old(new_data)@
                &&& final(new_indices)@ == old(new_indices)@
            },
    {
        let batch: usize = new_data.len();
        let mut c: usize = 0;
        while c < new_indices.len()
            invariant
                c <= new_indices.len(),
                batch == new_data@.len(),
                indices_local(new_indices@.take(c as int), batch as int),
                self.wf(),
                *self == *old(self),
                new_data@ == old(new_data)@,
                new_indices@ == old(new_indices)@,
            decreases new_indices.len() - c,
        {
            if new_indices[c] as usize >= batch {
                return Err(MeshError::IndexOutOfRange);
            }
            assert forall|i: int| 0 <= i < c + 1 implies (#[trigger] new_indices@.take(c + 1)[i])
                < batch by {
                if i < c {
                    assert(new_indices@.take(c as int)[i] == new_indices@[i]);
                }
            }
            c += 1;
        }
        assert(new_indices@.take(c as int) =~= new_indices@);

        let base: u32 = self.data.len() as u32;
        let ghost local = new_indices@;
        let mut i: usize = 0;
        while i < new_indices.len()
            invariant
                i <= new_indices.len(),
                new_indices@.len() == local.len(),
                indices_local(local, batch as int),
                base + batch <= u32::MAX,
                forall|j: int| 0 <= j < i ==> new_indices@[j] == (local[j] + base) as u32,
                forall|j: int| i <= j < local.len() ==> new_indices@[j] == local[j],
            decreases new_indices.len() - i,
        {
            assert(new_indices@[i as int] == local[i as int]);
            let moved: u32 = new_indices[i] + base;
            new_indices[i] = moved;
            i += 1;
        }
        assert(new_indices@ =~= rebase(local, base as int));
        self.data.append(new_data);
        self.indices.append(new_indices);
        Ok(self.update_on_gpu(last_update))
    }
}

} // verus!
