//! Triangle geometry: vertex positions, optional indices, and the vertex array
//! object that describes them to the GPU.
//!
//! The attribute layout is fixed and not configurable: attribute 0 holds one
//! position of three floats per vertex, tightly packed, from the start of the
//! vertex buffer. Errors that the GPU raises while drawing are not looked for.

use crate::command::{
    lemma_views_add, lemma_views_push, views, BufferTarget, Command, CommandView, Reply, ReplyView,
    NONE,
};
use crate::error::{Error, ErrorView};
use crate::shader::{scoped, ActivatedShader, ShaderProgram};
use vstd::prelude::*;
use vstd::slice::slice_to_vec;

verus! {

/// The attribute that holds the positions.
pub const POSITION_ATTRIBUTE: u32 = 0;

/// The number of floats in one position.
pub const POSITION_COMPONENTS: i32 = 3;

/// The number of bytes from one position to the next.
pub const POSITION_STRIDE: i32 = 12;

/// The number of vertices drawn where no indices were supplied.
pub const UNINDEXED_VERTICES: i32 = 3;

/// A geometry as a mathematical value.
pub struct GeometryView {
    /// The vertex array object; `NONE` until the geometry is built.
    pub vao: u32,
    /// The positions, three floats per vertex, as bit patterns.
    pub vertices: Option<Seq<u32>>,
    pub indices: Option<Seq<u32>>,
}

/// A geometry: first a builder that collects the data, and, once built, a
/// thing that can be drawn.
#[derive(Debug)]
pub struct Geometry<'a> {
    vao: u32,
    vertices: Option<&'a [u32]>,
    indices: Option<&'a [u32]>,
}

impl<'a> View for Geometry<'a> {
    type V = GeometryView;

    closed spec fn view(&self) -> GeometryView {
        GeometryView {
            vao: self.vao,
            vertices: match self.vertices {
                Some(vertices) => Some(vertices@),
                None => None,
            },
            indices: match self.indices {
                Some(indices) => Some(indices@),
                None => None,
            },
        }
    }
}

/// Whether an array of 32-bit values can be uploaded: its size in bytes must
/// fit the signed size that the GPU takes.
pub open spec fn fits(data: Seq<u32>) -> bool {
    4 * data.len() <= isize::MAX
}

/// Whether an array of indices can be drawn in one call: its length must fit
/// the signed count that the GPU takes.
pub open spec fn countable(indices: Seq<u32>) -> bool {
    indices.len() <= i32::MAX
}

/// The commands that bind a buffer and fill it with an array of 32-bit values.
pub open spec fn fill_commands(target: BufferTarget, buffer: u32, data: Seq<u32>) -> Seq<
    CommandView,
> {
    seq![
        CommandView::BindBuffer { target, buffer },
        CommandView::BufferData { target, size: 4 * data.len() as int, data },
    ]
}

/// The commands that describe the fixed position layout, switch it on, and
/// take back the bindings of the array buffer and the vertex array.
pub open spec fn layout_commands() -> Seq<CommandView> {
    seq![
        CommandView::VertexAttribPointer {
            index: POSITION_ATTRIBUTE,
            components: POSITION_COMPONENTS,
            stride: POSITION_STRIDE,
        },
        CommandView::EnableVertexAttribArray { index: POSITION_ATTRIBUTE },
        CommandView::BindBuffer { target: BufferTarget::Array, buffer: NONE },
        CommandView::BindVertexArray { array: NONE },
    ]
}

impl GeometryView {
    /// A builder that holds nothing yet.
    pub open spec fn empty() -> GeometryView {
        GeometryView { vao: NONE, vertices: None, indices: None }
    }

    /// The positions; none if none were supplied.
    pub open spec fn vertex_data(self) -> Seq<u32> {
        match self.vertices {
            Some(vertices) => vertices,
            None => Seq::empty(),
        }
    }

    /// The indices; none if none were supplied.
    pub open spec fn index_data(self) -> Seq<u32> {
        match self.indices {
            Some(indices) => indices,
            None => Seq::empty(),
        }
    }

    /// The one draw call of this geometry: indexed over every supplied index,
    /// or else over the first three vertices.
    pub open spec fn draw(self) -> CommandView {
        match self.indices {
            Some(indices) => CommandView::DrawElements { count: indices.len() as i32 },
            None => CommandView::DrawArrays { first: 0, count: UNINDEXED_VERTICES },
        }
    }

    /// What is carried out to draw this geometry with a program.
    pub open spec fn render(self, program: u32) -> Seq<CommandView> {
        scoped(program, seq![CommandView::BindVertexArray { array: self.vao }, self.draw()])
    }
}

/// What an upload is waiting for.
#[derive(Clone, Copy, Debug, PartialEq, Eq, Structural)]
pub enum UploadPhase {
    /// The name of the vertex array object.
    CreateArray,
    /// The name of the vertex buffer.
    CreateVertexBuffer,
    /// The name of the index buffer.
    CreateIndexBuffer,
    /// Nothing: the geometry is on the GPU.
    Finished,
}

/// The state of an upload as a mathematical value.
pub struct UploadView {
    pub geometry: GeometryView,
    pub phase: UploadPhase,
}

impl UploadView {
    /// The upload of a geometry, before anything was asked.
    pub open spec fn start(geometry: GeometryView) -> UploadView {
        UploadView { geometry, phase: UploadPhase::CreateArray }
    }

    /// The batch that opens an upload.
    pub open spec fn first_batch() -> Seq<CommandView> {
        seq![CommandView::GenVertexArray]
    }

    pub open spec fn finished(self) -> bool {
        self.phase == UploadPhase::Finished
    }

    /// The same upload in another phase.
    pub open spec fn at(self, phase: UploadPhase) -> UploadView {
        UploadView { phase, ..self }
    }

    /// The state after a reply, and the batch to carry out next.
    ///
    /// A reply that names no object counts as the object `NONE`.
    pub open spec fn step(self, reply: ReplyView) -> (UploadView, Seq<CommandView>) {
        match self.phase {
            UploadPhase::CreateArray => (
                UploadView {
                    geometry: GeometryView { vao: reply.handle(), ..self.geometry },
                    phase: UploadPhase::CreateVertexBuffer,
                },
                seq![CommandView::GenBuffer],
            ),
            UploadPhase::CreateVertexBuffer => {
                let fill = seq![CommandView::BindVertexArray { array: self.geometry.vao }]
                    + fill_commands(
                    BufferTarget::Array,
                    reply.handle(),
                    self.geometry.vertex_data(),
                );
                if self.geometry.indices.is_some() {
                    (self.at(UploadPhase::CreateIndexBuffer), fill + seq![CommandView::GenBuffer])
                } else {
                    (self.at(UploadPhase::Finished), fill + layout_commands())
                }
            },
            UploadPhase::CreateIndexBuffer => (
                self.at(UploadPhase::Finished),
                fill_commands(
                    BufferTarget::ElementArray,
                    reply.handle(),
                    self.geometry.index_data(),
                ) + layout_commands(),
            ),
            UploadPhase::Finished => (self, Seq::empty()),
        }
    }
}

/// A geometry on its way to the GPU.
#[derive(Debug)]
pub struct Upload<'a> {
    geometry: Geometry<'a>,
    phase: UploadPhase,
}

impl<'a> View for Upload<'a> {
    type V = UploadView;

    closed spec fn view(&self) -> UploadView {
        UploadView { geometry: self.geometry@, phase: self.phase }
    }
}

impl<'a> Geometry<'a> {
    #[verifier::type_invariant]
    spec fn sized(self) -> bool {
        fits(self@.vertex_data()) && fits(self@.index_data()) && countable(self@.index_data())
    }

    /// A builder that holds nothing yet.
    pub fn new() -> (geometry: Geometry<'a>)
        ensures
            geometry@ == GeometryView::empty(),
    {
        Geometry { vao: NONE, vertices: None, indices: None }
    }

    /// The vertex array object; `NONE` until the geometry is built.
    pub fn vao(&self) -> (vao: u32)
        ensures
            vao == self@.vao,
    {
        self.vao
    }

    /// Supplies the positions: three floats per vertex, as bit patterns.
    pub fn add_vertices(self, vertices: &'a [u32]) -> (geometry: Geometry<'a>)
        requires
            fits(vertices@),
        ensures
            geometry@ == (GeometryView { vertices: Some(vertices@), ..self@ }),
    {
        proof {
            use_type_invariant(&self);
        }
        Geometry { vao: self.vao, vertices: Some(vertices), indices: self.indices }
    }

    /// Supplies the indices into the positions.
    pub fn add_indices(self, indices: &'a [u32]) -> (geometry: Geometry<'a>)
        requires
            fits(indices@),
            countable(indices@),
        ensures
            geometry@ == (GeometryView { indices: Some(indices@), ..self@ }),
    {
        proof {
            use_type_invariant(&self);
        }
        Geometry { vao: self.vao, vertices: self.vertices, indices: Some(indices) }
    }

    /// Ends the collecting and opens the upload, or refuses a geometry without
    /// positions before anything is asked of the GPU.
    pub fn build(self) -> (opened: Result<(Upload<'a>, Vec<Command>), Error>)
        ensures
            match opened {
                Ok((upload, batch)) => self@.vertices.is_some() && upload@ == UploadView::start(
                    self@,
                ) && views(batch@) == UploadView::first_batch(),
                Err(error) => self@.vertices.is_none() && error@ == ErrorView::MissingVertices,
            },
    {
        if self.vertices.is_none() {
            return Err(Error::MissingVertices);
        }
        let upload = Upload { geometry: self, phase: UploadPhase::CreateArray };
        let batch = vec![Command::GenVertexArray];
        assert(views(batch@) =~= UploadView::first_batch());
        Ok((upload, batch))
    }

    /// The batch that draws this geometry with a program: the program is made
    /// current, the vertex array is bound, one draw call is made, and the
    /// program is unbound again.
    pub fn render(&self, program: &ShaderProgram) -> (batch: Vec<Command>)
        ensures
            views(batch@) == self@.render(program@.id),
    {
        let draw = self.draw();
        let bind = Command::BindVertexArray { array: self.vao };
        let body = move |activated: &ActivatedShader| -> (r: Result<Vec<Command>, Error>)
            ensures
                r.is_ok(),
                views(r.unwrap()@) == seq![bind@, draw@],
            {
                let body = vec![bind, draw];
                assert(views(body@) =~= seq![bind@, draw@]);
                Ok(body)
            };
        let (batch, _) = program.activate(body);
        batch
    }

    /// The one draw call of this geometry.
    fn draw(&self) -> (command: Command)
        ensures
            command@ == self@.draw(),
    {
        proof {
            use_type_invariant(self);
        }
        match self.indices {
            Some(indices) => Command::DrawElements { count: indices.len() as i32 },
            None => Command::DrawArrays { first: 0, count: UNINDEXED_VERTICES },
        }
    }
}

/// The batch that binds a buffer and fills it with an array of 32-bit values.
fn fill_batch(target: BufferTarget, buffer: u32, data: &[u32]) -> (batch: Vec<Command>)
    requires
        fits(data@),
    ensures
        views(batch@) == fill_commands(target, buffer, data@),
{
    let size: isize = (4 * data.len()) as isize;
    let batch = vec![
        Command::BindBuffer { target, buffer },
        Command::BufferData { target, size, data: slice_to_vec(data) },
    ];
    assert(views(batch@) =~= fill_commands(target, buffer, data@));
    batch
}

/// The batch that describes the fixed position layout and takes back the bindings.
fn layout_batch() -> (batch: Vec<Command>)
    ensures
        views(batch@) == layout_commands(),
{
    let batch = vec![
        Command::VertexAttribPointer {
            index: POSITION_ATTRIBUTE,
            components: POSITION_COMPONENTS,
            stride: POSITION_STRIDE,
        },
        Command::EnableVertexAttribArray { index: POSITION_ATTRIBUTE },
        Command::BindBuffer { target: BufferTarget::Array, buffer: NONE },
        Command::BindVertexArray { array: NONE },
    ];
    assert(views(batch@) =~= layout_commands());
    batch
}

impl<'a> Upload<'a> {
    /// Whether the geometry is on the GPU.
    pub fn is_finished(&self) -> (done: bool)
        ensures
            done == self@.finished(),
    {
        self.phase == UploadPhase::Finished
    }

    /// Takes in the reply to the last batch and says what to do next.
    pub fn advance(&mut self, reply: Reply) -> (batch: Vec<Command>)
        ensures
            final(self)@ == old(self)@.step(reply@).0,
            views(batch@) == old(self)@.step(reply@).1,
    {
        proof {
            use_type_invariant(&self.geometry);
        }
        match self.phase {
            UploadPhase::CreateArray => {
                self.geometry.vao = reply.handle();
                self.phase = UploadPhase::CreateVertexBuffer;
                let batch = vec![Command::GenBuffer];
                assert(views(batch@) =~= seq![CommandView::GenBuffer]);
                batch
            },
            UploadPhase::CreateVertexBuffer => {
                let empty: [u32; 0] = [];
                let vertices: &[u32] = match self.geometry.vertices {
                    Some(vertices) => vertices,
                    None => empty.as_slice(),
                };
                assert(vertices@ =~= old(self)@.geometry.vertex_data());
                let mut batch = vec![Command::BindVertexArray { array: self.geometry.vao }];
                let mut fill = fill_batch(BufferTarget::Array, reply.handle(), vertices);
                proof {
                    assert(views(batch@) =~= seq![
                        CommandView::BindVertexArray { array: self.geometry.vao },
                    ]);
                    lemma_views_add(batch@, fill@);
                }
                batch.append(&mut fill);
                if self.geometry.indices.is_some() {
                    self.phase = UploadPhase::CreateIndexBuffer;
                    proof {
                        lemma_views_push(batch@, Command::GenBuffer);
                    }
                    batch.push(Command::GenBuffer);
                } else {
                    self.phase = UploadPhase::Finished;
                    let mut layout = layout_batch();
                    proof {
                        lemma_views_add(batch@, layout@);
                    }
                    batch.append(&mut layout);
                }
                assert(views(batch@) =~= old(self)@.step(reply@).1);
                batch
            },
            UploadPhase::CreateIndexBuffer => {
                let empty: [u32; 0] = [];
                let indices: &[u32] = match self.geometry.indices {
                    Some(indices) => indices,
                    None => empty.as_slice(),
                };
                assert(indices@ =~= old(self)@.geometry.index_data());
                let mut batch = fill_batch(BufferTarget::ElementArray, reply.handle(), indices);
                let mut layout = layout_batch();
                proof {
                    lemma_views_add(batch@, layout@);
                }
                batch.append(&mut layout);
                self.phase = UploadPhase::Finished;
                assert(views(batch@) =~= old(self)@.step(reply@).1);
                batch
            },
            UploadPhase::Finished => {
                let batch = Vec::new();
                assert(views(batch@) =~= Seq::empty());
                batch
            },
        }
    }

    /// Hands out the geometry that was uploaded.
    pub fn finish(self) -> (geometry: Geometry<'a>)
        requires
            self@.finished(),
        ensures
            geometry@ == self@.geometry,
    {
        self.geometry
    }
}

} // verus!
