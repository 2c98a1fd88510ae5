//! What holds of loads, programs and geometries taken together.

use crate::command::{BufferTarget, CommandView, ReplyView, Stage, NONE};
use crate::error::ErrorView;
use crate::geometry::{
    countable, GeometryView, UploadView, POSITION_ATTRIBUTE, POSITION_COMPONENTS, POSITION_STRIDE,
    UNINDEXED_VERTICES,
};
use crate::load::{lemma_load_ends_as_replied, LoadView};
use crate::shader::{scoped, ShaderProgramView};
use crate::text::clean_log;
use vstd::prelude::*;

verus! {

/// Whether a command touches an index buffer.
pub open spec fn touches_indices(command: CommandView) -> bool {
    match command {
        CommandView::BindBuffer { target: BufferTarget::ElementArray, .. } => true,
        CommandView::BufferData { target: BufferTarget::ElementArray, .. } => true,
        CommandView::DrawElements { .. } => true,
        _ => false,
    }
}

/// A geometry with positions and without indices is on the GPU after two
/// replies, whatever names the driver hands out: one vertex array and one
/// buffer are generated, the buffer is filled with the positions as supplied,
/// and the fixed layout is set. Nothing in its upload or in its drawing
/// touches an index buffer, and it is drawn with one call over exactly three
/// vertices, in a scope of the program.
pub proof fn lemma_unindexed_geometry(
    geometry: GeometryView,
    array: ReplyView,
    buffer: ReplyView,
    program: u32,
)
    requires
        geometry.vertices.is_some(),
        geometry.indices.is_none(),
    ensures
        ({
            let created = UploadView::start(geometry).step(array);
            let filled = created.0.step(buffer);
            let drawn = filled.0.geometry.render(program);
            &&& !created.0.finished()
            &&& created.1 == seq![CommandView::GenBuffer]
            &&& filled.0.finished()
            &&& filled.0.geometry == (GeometryView { vao: array.handle(), ..geometry })
            &&& filled.1 == seq![
                CommandView::BindVertexArray { array: array.handle() },
                CommandView::BindBuffer { target: BufferTarget::Array, buffer: buffer.handle() },
                CommandView::BufferData {
                    target: BufferTarget::Array,
                    size: 4 * geometry.vertices.unwrap().len() as int,
                    data: geometry.vertices.unwrap(),
                },
                CommandView::VertexAttribPointer {
                    index: POSITION_ATTRIBUTE,
                    components: POSITION_COMPONENTS,
                    stride: POSITION_STRIDE,
                },
                CommandView::EnableVertexAttribArray { index: POSITION_ATTRIBUTE },
                CommandView::BindBuffer { target: BufferTarget::Array, buffer: NONE },
                CommandView::BindVertexArray { array: NONE },
            ]
            &&& drawn == seq![
                CommandView::UseProgram { program },
                CommandView::BindVertexArray { array: array.handle() },
                CommandView::DrawArrays { first: 0, count: UNINDEXED_VERTICES },
                CommandView::UseProgram { program: NONE },
            ]
            &&& forall|i: int| 0 <= i < filled.1.len() ==> !touches_indices(#[trigger] filled.1[i])
            &&& forall|i: int| 0 <= i < drawn.len() ==> !touches_indices(#[trigger] drawn[i])
        }),
{
    let created = UploadView::start(geometry).step(array);
    let filled = created.0.step(buffer);
    assert(filled.1 =~= seq![
        CommandView::BindVertexArray { array: array.handle() },
        CommandView::BindBuffer { target: BufferTarget::Array, buffer: buffer.handle() },
        CommandView::BufferData {
            target: BufferTarget::Array,
            size: 4 * geometry.vertices.unwrap().len() as int,
            data: geometry.vertices.unwrap(),
        },
        CommandView::VertexAttribPointer {
            index: POSITION_ATTRIBUTE,
            components: POSITION_COMPONENTS,
            stride: POSITION_STRIDE,
        },
        CommandView::EnableVertexAttribArray { index: POSITION_ATTRIBUTE },
        CommandView::BindBuffer { target: BufferTarget::Array, buffer: NONE },
        CommandView::BindVertexArray { array: NONE },
    ]);
    assert(filled.0.geometry.render(program) =~= seq![
        CommandView::UseProgram { program },
        CommandView::BindVertexArray { array: array.handle() },
        CommandView::DrawArrays { first: 0, count: UNINDEXED_VERTICES },
        CommandView::UseProgram { program: NONE },
    ]);
}

/// A geometry with positions and indices is on the GPU after three replies,
/// whatever names the driver hands out: one vertex array and two buffers are
/// generated, the first buffer is filled with the positions and the second
/// with the indices, both as supplied, and the fixed layout is set. It is
/// drawn with one indexed call over exactly as many indices as were supplied.
pub proof fn lemma_indexed_geometry(
    geometry: GeometryView,
    array: ReplyView,
    buffer: ReplyView,
    index_buffer: ReplyView,
    program: u32,
)
    requires
        geometry.vertices.is_some(),
        geometry.indices.is_some(),
        countable(geometry.indices.unwrap()),
    ensures
        ({
            let created = UploadView::start(geometry).step(array);
            let filled = created.0.step(buffer);
            let indexed = filled.0.step(index_buffer);
            let indices = geometry.indices.unwrap();
            &&& !created.0.finished()
            &&& created.1 == seq![CommandView::GenBuffer]
            &&& !filled.0.finished()
            &&& filled.1 == seq![
                CommandView::BindVertexArray { array: array.handle() },
                CommandView::BindBuffer { target: BufferTarget::Array, buffer: buffer.handle() },
                CommandView::BufferData {
                    target: BufferTarget::Array,
                    size: 4 * geometry.vertices.unwrap().len() as int,
                    data: geometry.vertices.unwrap(),
                },
                CommandView::GenBuffer,
            ]
            &&& indexed.0.finished()
            &&& indexed.0.geometry == (GeometryView { vao: array.handle(), ..geometry })
            &&& indexed.1 == seq![
                CommandView::BindBuffer {
                    target: BufferTarget::ElementArray,
                    buffer: index_buffer.handle(),
                },
                CommandView::BufferData {
                    target: BufferTarget::ElementArray,
                    size: 4 * indices.len() as int,
                    data: indices,
                },
                CommandView::VertexAttribPointer {
                    index: POSITION_ATTRIBUTE,
                    components: POSITION_COMPONENTS,
                    stride: POSITION_STRIDE,
                },
                CommandView::EnableVertexAttribArray { index: POSITION_ATTRIBUTE },
                CommandView::BindBuffer { target: BufferTarget::Array, buffer: NONE },
                CommandView::BindVertexArray { array: NONE },
            ]
            &&& exists|count: i32|
                count == indices.len() && indexed.0.geometry.render(program) == seq![
                    CommandView::UseProgram { program },
                    CommandView::BindVertexArray { array: array.handle() },
                    CommandView::DrawElements { count },
                    CommandView::UseProgram { program: NONE },
                ]
        }),
{
    let created = UploadView::start(geometry).step(array);
    let filled = created.0.step(buffer);
    let indexed = filled.0.step(index_buffer);
    let indices = geometry.indices.unwrap();
    let count = indices.len() as i32;
    assert(filled.1 =~= seq![
        CommandView::BindVertexArray { array: array.handle() },
        CommandView::BindBuffer { target: BufferTarget::Array, buffer: buffer.handle() },
        CommandView::BufferData {
            target: BufferTarget::Array,
            size: 4 * geometry.vertices.unwrap().len() as int,
            data: geometry.vertices.unwrap(),
        },
        CommandView::GenBuffer,
    ]);
    assert(indexed.1 =~= seq![
        CommandView::BindBuffer { target: BufferTarget::ElementArray, buffer: index_buffer.handle() },
        CommandView::BufferData {
            target: BufferTarget::ElementArray,
            size: 4 * indices.len() as int,
            data: indices,
        },
        CommandView::VertexAttribPointer {
            index: POSITION_ATTRIBUTE,
            components: POSITION_COMPONENTS,
            stride: POSITION_STRIDE,
        },
        CommandView::EnableVertexAttribArray { index: POSITION_ATTRIBUTE },
        CommandView::BindBuffer { target: BufferTarget::Array, buffer: NONE },
        CommandView::BindVertexArray { array: NONE },
    ]);
    assert(indexed.0.geometry.render(program) =~= seq![
        CommandView::UseProgram { program },
        CommandView::BindVertexArray { array: array.handle() },
        CommandView::DrawElements { count },
        CommandView::UseProgram { program: NONE },
    ]);
}

/// A reload whose fragment stage does not compile fails with the compiler's
/// diagnostics for that stage, and changes nothing: the program keeps its
/// program object, and every geometry is drawn with exactly the commands it
/// was drawn with before.
///
/// The replies are those of a load that read both files and compiled the
/// vertex stage; the sixth is the compile status of the fragment stage, the
/// seventh its diagnostics.
pub proof fn lemma_failed_reload_keeps_program(
    program: ShaderProgramView,
    geometry: GeometryView,
    replies: Seq<ReplyView>,
)
    requires
        replies.len() >= 7,
        replies[0].text().is_some(),
        replies[1].text().is_some(),
        replies[3].succeeded(),
        !replies[5].succeeded(),
    ensures
        ({
            let ended = LoadView::start(program.vertex_filename, program.fragment_filename).run(
                replies,
            );
            &&& ended.outcome == Some(
                Err::<u32, ErrorView>(
                    ErrorView::Compile {
                        stage: Stage::Fragment,
                        log: clean_log(replies[6].log()),
                    },
                ),
            )
            &&& program.reloaded(ended.outcome.unwrap()) == program
            &&& program.swap_commands(ended.outcome.unwrap()) == Seq::<CommandView>::empty()
            &&& geometry.render(program.reloaded(ended.outcome.unwrap()).id) == geometry.render(
                program.id,
            )
        }),
{
    lemma_load_ends_as_replied(program.vertex_filename, program.fragment_filename, replies);
}

/// A reload of readable files whose stages compile and link succeeds: the
/// program takes over the program object that the driver created for the
/// load, keeps its files, and releases the program object it had.
///
/// The replies are, in order: the two texts, the vertex shader and its
/// status, the fragment shader and its status, the program and its status.
pub proof fn lemma_clean_reload_swaps_program(program: ShaderProgramView, replies: Seq<ReplyView>)
    requires
        replies.len() >= 8,
        replies[0].text().is_some(),
        replies[1].text().is_some(),
        replies[3].succeeded(),
        replies[5].succeeded(),
        replies[7].succeeded(),
    ensures
        ({
            let ended = LoadView::start(program.vertex_filename, program.fragment_filename).run(
                replies,
            );
            &&& ended.outcome == Some(Ok::<u32, ErrorView>(replies[6].handle()))
            &&& program.reloaded(ended.outcome.unwrap()) == (ShaderProgramView {
                id: replies[6].handle(),
                ..program
            })
            &&& program.swap_commands(ended.outcome.unwrap()) == seq![
                CommandView::DeleteProgram { program: program.id },
            ]
        }),
{
    lemma_load_ends_as_replied(program.vertex_filename, program.fragment_filename, replies);
}

/// A reload that fails, for whatever reason, changes nothing: the program
/// keeps its program object and nothing is released.
pub proof fn lemma_any_failed_reload_keeps_program(
    program: ShaderProgramView,
    replies: Seq<ReplyView>,
)
    requires
        LoadView::verdict(program.vertex_filename, program.fragment_filename, replies) matches Some(
            Err(_),
        ),
    ensures
        ({
            let ended = LoadView::start(program.vertex_filename, program.fragment_filename).run(
                replies,
            );
            &&& ended.finished()
            &&& program.reloaded(ended.outcome.unwrap()) == program
            &&& program.swap_commands(ended.outcome.unwrap()) == Seq::<CommandView>::empty()
        }),
{
    lemma_load_ends_as_replied(program.vertex_filename, program.fragment_filename, replies);
}

/// The program that is current after a batch, where `before` was current
/// before it: the one that the last binding in the batch names.
pub open spec fn current_after(before: u32, batch: Seq<CommandView>) -> u32
    decreases batch.len(),
{
    if batch.len() == 0 {
        before
    } else {
        match batch.last() {
            CommandView::UseProgram { program } => program,
            _ => current_after(before, batch.drop_last()),
        }
    }
}

/// Whether a batch leaves the binding of the program alone.
pub open spec fn binds_no_program(batch: Seq<CommandView>) -> bool {
    forall|i: int| 0 <= i < batch.len() ==> !(#[trigger] batch[i] is UseProgram)
}

/// Whatever the body of a scope holds, the scope starts by making the program
/// current and ends with no program current, whichever program was current
/// before it. The body stands between the two bindings as it is.
pub proof fn lemma_scope_is_closed(before: u32, program: u32, body: Seq<CommandView>)
    ensures
        scoped(program, body).len() == body.len() + 2,
        scoped(program, body).first() == (CommandView::UseProgram { program }),
        scoped(program, body).last() == (CommandView::UseProgram { program: NONE }),
        forall|i: int| 0 <= i < body.len() ==> scoped(program, body)[i + 1] == body[i],
        current_after(before, scoped(program, body)) == NONE,
{
}

/// While the body of a scope is carried out, the program of the scope is the
/// current one, up to the point where the body itself binds another.
pub proof fn lemma_scope_keeps_program_current(before: u32, program: u32, body: Seq<CommandView>)
    requires
        binds_no_program(body),
    ensures
        current_after(before, seq![CommandView::UseProgram { program }] + body) == program,
    decreases body.len(),
{
    let head = seq![CommandView::UseProgram { program }];
    if body.len() == 0 {
        assert(head + body =~= head);
    } else {
        assert((head + body).drop_last() =~= head + body.drop_last());
        assert((head + body).last() == body.last());
        assert(body.last() == body[body.len() - 1]);
        assert forall|i: int| 0 <= i < body.drop_last().len() implies !(
        #[trigger] body.drop_last()[i] is UseProgram) by {
            assert(body.drop_last()[i] == body[i]);
        }
        lemma_scope_keeps_program_current(before, program, body.drop_last());
    }
}

/// Drawing a geometry leaves no program current, and between its two
/// bindings the program it was drawn with is the current one.
pub proof fn lemma_render_is_scoped(geometry: GeometryView, before: u32, program: u32)
    ensures
        current_after(before, geometry.render(program)) == NONE,
        current_after(before, geometry.render(program).drop_last()) == program,
{
    let body = seq![CommandView::BindVertexArray { array: geometry.vao }, geometry.draw()];
    assert(binds_no_program(body));
    lemma_scope_keeps_program_current(before, program, body);
    assert(geometry.render(program).drop_last() =~= seq![CommandView::UseProgram { program }]
        + body);
}

} // verus!
