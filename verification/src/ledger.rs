//! Keeping account of what loads and reloads leave on the GPU.
//!
//! The account is kept over the commands themselves: a shader or program
//! object is alive from the reply that names it until the command that
//! deletes it. A load that has come to its end has deleted every shader it
//! created, and leaves a program behind only if that program linked. A
//! reload leaves the program with exactly one program object of its own,
//! the new one if it linked and the old one if it did not.

use crate::command::{CommandView, ReplyView};
use crate::load::{LoadView, Phase};
use crate::shader::ShaderProgramView;
use vstd::multiset::Multiset;
use vstd::prelude::*;

verus! {

/// The objects that are alive on the GPU, each as often as it was created
/// and not deleted.
pub struct Live {
    pub shaders: Multiset<u32>,
    pub programs: Multiset<u32>,
}

impl Live {
    /// No object is alive.
    pub open spec fn nothing() -> Live {
        Live { shaders: Multiset::empty(), programs: Multiset::empty() }
    }

    /// One program object is alive, and nothing else.
    pub open spec fn program(id: u32) -> Live {
        Live { shaders: Multiset::empty(), programs: Multiset::singleton(id) }
    }

    /// What is alive here together with what is alive there.
    pub open spec fn with(self, other: Live) -> Live {
        Live {
            shaders: self.shaders.add(other.shaders),
            programs: self.programs.add(other.programs),
        }
    }

    /// What is alive after one command, where `reply` is the answer to it.
    pub open spec fn after(self, command: CommandView, reply: ReplyView) -> Live {
        match command {
            CommandView::CreateShader { .. } => Live {
                shaders: self.shaders.insert(reply.handle()),
                ..self
            },
            CommandView::DeleteShader { shader } => Live {
                shaders: self.shaders.remove(shader),
                ..self
            },
            CommandView::CreateProgram => Live {
                programs: self.programs.insert(reply.handle()),
                ..self
            },
            CommandView::DeleteProgram { program } => Live {
                programs: self.programs.remove(program),
                ..self
            },
            _ => self,
        }
    }

    /// What is alive after a batch, where `reply` is the answer to its last command.
    pub open spec fn after_batch(self, batch: Seq<CommandView>, reply: ReplyView) -> Live
        decreases batch.len(),
    {
        if batch.len() == 0 {
            self
        } else {
            self.after_batch(batch.drop_last(), ReplyView::Nothing).after(batch.last(), reply)
        }
    }
}

impl LoadView {
    /// What is alive once the load, with the batch `pending` still to be
    /// carried out, has been driven by a row of replies and its last batch
    /// has been carried out too.
    pub open spec fn leaves(self, pending: Seq<CommandView>, replies: Seq<ReplyView>, live: Live) -> Live
        decreases replies.len(),
    {
        if replies.len() == 0 {
            live.after_batch(pending, ReplyView::Nothing)
        } else {
            let next = self.step(replies.first());
            next.0.leaves(
                next.1,
                replies.drop_first(),
                live.after_batch(pending, replies.first()),
            )
        }
    }

    /// What a load holds once its pending batch is carried out and answered.
    pub open spec fn holds(self, reply: ReplyView) -> Live {
        if self.finished() {
            Live {
                shaders: Multiset::empty(),
                programs: match self.outcome {
                    Some(Ok(program)) => Multiset::singleton(program),
                    _ => Multiset::empty(),
                },
            }
        } else {
            match self.phase {
                Phase::ReadVertex | Phase::ReadFragment => Live::nothing(),
                Phase::CreateVertex => Live {
                    shaders: Multiset::singleton(reply.handle()),
                    programs: Multiset::empty(),
                },
                Phase::VertexStatus | Phase::VertexLog => Live {
                    shaders: Multiset::singleton(self.vertex_shader),
                    programs: Multiset::empty(),
                },
                Phase::CreateFragment => Live {
                    shaders: Multiset::singleton(self.vertex_shader).insert(reply.handle()),
                    programs: Multiset::empty(),
                },
                Phase::FragmentStatus | Phase::FragmentLog => Live {
                    shaders: Multiset::singleton(self.vertex_shader).insert(self.fragment_shader),
                    programs: Multiset::empty(),
                },
                Phase::CreateProgram => Live {
                    shaders: Multiset::singleton(self.vertex_shader).insert(self.fragment_shader),
                    programs: Multiset::singleton(reply.handle()),
                },
                Phase::LinkStatus | Phase::LinkLog => Live {
                    shaders: Multiset::singleton(self.vertex_shader).insert(self.fragment_shader),
                    programs: Multiset::singleton(self.program),
                },
            }
        }
    }

    /// Whether the account is in order: whatever the reply to the pending
    /// batch, what is alive after it is what the load holds, beside what was
    /// alive before the load began.
    pub open spec fn accounted(self, pending: Seq<CommandView>, live: Live, others: Live) -> bool {
        forall|reply: ReplyView| #[trigger]
            live.after_batch(pending, reply) == others.with(self.holds(reply))
    }
}

proof fn lemma_after_one(live: Live, a: CommandView, reply: ReplyView)
    ensures
        live.after_batch(seq![a], reply) == live.after(a, reply),
{
    reveal_with_fuel(Live::after_batch, 2);
    assert(seq![a].drop_last() =~= Seq::<CommandView>::empty());
}

proof fn lemma_after_two(live: Live, a: CommandView, b: CommandView, reply: ReplyView)
    ensures
        live.after_batch(seq![a, b], reply) == live.after(a, ReplyView::Nothing).after(b, reply),
{
    assert(seq![a, b].drop_last() =~= seq![a]);
    lemma_after_one(live, a, ReplyView::Nothing);
}

proof fn lemma_after_three(
    live: Live,
    a: CommandView,
    b: CommandView,
    c: CommandView,
    reply: ReplyView,
)
    ensures
        live.after_batch(seq![a, b, c], reply) == live.after(a, ReplyView::Nothing).after(
            b,
            ReplyView::Nothing,
        ).after(c, reply),
{
    assert(seq![a, b, c].drop_last() =~= seq![a, b]);
    lemma_after_two(live, a, b, ReplyView::Nothing);
}

proof fn lemma_after_four(
    live: Live,
    a: CommandView,
    b: CommandView,
    c: CommandView,
    d: CommandView,
    reply: ReplyView,
)
    ensures
        live.after_batch(seq![a, b, c, d], reply) == live.after(a, ReplyView::Nothing).after(
            b,
            ReplyView::Nothing,
        ).after(c, ReplyView::Nothing).after(d, reply),
{
    assert(seq![a, b, c, d].drop_last() =~= seq![a, b, c]);
    lemma_after_three(live, a, b, c, ReplyView::Nothing);
}

/// One step keeps the account in order.
proof fn lemma_step_keeps_account(
    load: LoadView,
    pending: Seq<CommandView>,
    live: Live,
    others: Live,
    reply: ReplyView,
)
    requires
        load.accounted(pending, live, others),
    ensures
        load.step(reply).0.accounted(load.step(reply).1, live.after_batch(pending, reply), others),
{
    broadcast use vstd::multiset::group_multiset_axioms;

    let next = load.step(reply);
    let now = live.after_batch(pending, reply);
    assert(now == others.with(load.holds(reply)));
    assert forall|answer: ReplyView| #[trigger]
        now.after_batch(next.1, answer) == others.with(next.0.holds(answer)) by {
        let batch = next.1;
        if batch.len() == 0 {
        } else if batch.len() == 1 {
            assert(batch =~= seq![batch[0]]);
            lemma_after_one(now, batch[0], answer);
        } else if batch.len() == 2 {
            assert(batch =~= seq![batch[0], batch[1]]);
            lemma_after_two(now, batch[0], batch[1], answer);
        } else if batch.len() == 3 {
            assert(batch =~= seq![batch[0], batch[1], batch[2]]);
            lemma_after_three(now, batch[0], batch[1], batch[2], answer);
        } else {
            assert(batch =~= seq![batch[0], batch[1], batch[2], batch[3]]);
            lemma_after_four(now, batch[0], batch[1], batch[2], batch[3], answer);
        }
        let after = now.after_batch(batch, answer);
        let held = others.with(next.0.holds(answer));
        assert(after.shaders =~= held.shaders);
        assert(after.programs =~= held.programs);
    }
}

/// Driving a load keeps the account in order up to its end.
proof fn lemma_run_keeps_account(
    load: LoadView,
    pending: Seq<CommandView>,
    replies: Seq<ReplyView>,
    live: Live,
    others: Live,
)
    requires
        load.accounted(pending, live, others),
    ensures
        load.leaves(pending, replies, live) == others.with(
            load.run(replies).holds(ReplyView::Nothing),
        ),
    decreases replies.len(),
{
    if replies.len() > 0 {
        let reply = replies.first();
        lemma_step_keeps_account(load, pending, live, others, reply);
        lemma_run_keeps_account(
            load.step(reply).0,
            load.step(reply).1,
            replies.drop_first(),
            live.after_batch(pending, reply),
            others,
        );
    }
}

/// A load that is about to begin is accounted for, whatever is alive beside it.
proof fn lemma_start_is_accounted(start: LoadView, others: Live)
    requires
        !start.finished(),
        start.phase == Phase::ReadVertex,
    ensures
        start.accounted(start.first_batch(), others, others),
{
    broadcast use vstd::multiset::group_multiset_axioms;

    assert forall|reply: ReplyView| #[trigger]
        others.after_batch(start.first_batch(), reply) == others.with(start.holds(reply)) by {
        assert(start.first_batch() =~= seq![start.first_batch()[0]]);
        lemma_after_one(others, start.first_batch()[0], reply);
        let held = others.with(start.holds(reply));
        assert(others.shaders =~= held.shaders);
        assert(others.programs =~= held.programs);
    }
}

/// A load that has come to its end leaves no shader object behind, whatever
/// the driver replied on the way. It leaves exactly one program object behind
/// if it linked, the one it reports, and none if it failed.
pub proof fn lemma_load_leaves_nothing_behind(
    vertex_filename: Seq<char>,
    fragment_filename: Seq<char>,
    replies: Seq<ReplyView>,
)
    ensures
        ({
            let start = LoadView::start(vertex_filename, fragment_filename);
            let left = start.leaves(start.first_batch(), replies, Live::nothing());
            start.run(replies).finished() ==> {
                &&& left.shaders == Multiset::<u32>::empty()
                &&& left.programs == match start.run(replies).outcome {
                    Some(Ok(program)) => Multiset::singleton(program),
                    _ => Multiset::empty(),
                }
            }
        }),
{
    broadcast use vstd::multiset::group_multiset_axioms;

    let start = LoadView::start(vertex_filename, fragment_filename);
    lemma_start_is_accounted(start, Live::nothing());
    lemma_run_keeps_account(start, start.first_batch(), replies, Live::nothing(), Live::nothing());
    let left = start.leaves(start.first_batch(), replies, Live::nothing());
    let held = start.run(replies).holds(ReplyView::Nothing);
    assert(left.shaders =~= held.shaders);
    assert(left.programs =~= held.programs);
}

/// A reload never leaves a program without a program object, and never
/// leaves one too many. Whatever else is alive, and whatever the driver
/// replies: once the load of the program's files has come to its end and its
/// outcome is taken over, everything else is alive as before, no shader
/// object of the load is left, and the program has exactly one program
/// object: the new one if the load linked, the old one if it failed.
pub proof fn lemma_reload_keeps_one_program(
    program: ShaderProgramView,
    others: Live,
    replies: Seq<ReplyView>,
)
    ensures
        ({
            let start = LoadView::start(program.vertex_filename, program.fragment_filename);
            let ended = start.run(replies);
            let before = others.with(Live::program(program.id));
            ended.finished() ==> start.leaves(start.first_batch(), replies, before).after_batch(
                program.swap_commands(ended.outcome.unwrap()),
                ReplyView::Nothing,
            ) == others.with(Live::program(program.reloaded(ended.outcome.unwrap()).id))
        }),
{
    broadcast use vstd::multiset::group_multiset_axioms;

    let start = LoadView::start(program.vertex_filename, program.fragment_filename);
    let ended = start.run(replies);
    let before = others.with(Live::program(program.id));
    if ended.finished() {
        lemma_start_is_accounted(start, before);
        lemma_run_keeps_account(start, start.first_batch(), replies, before, before);
        let loaded = start.leaves(start.first_batch(), replies, before);
        assert(loaded == before.with(ended.holds(ReplyView::Nothing)));
        let outcome = ended.outcome.unwrap();
        let swap = program.swap_commands(outcome);
        let after = loaded.after_batch(swap, ReplyView::Nothing);
        let wanted = others.with(Live::program(program.reloaded(outcome).id));
        match outcome {
            Ok(id) => {
                assert(swap =~= seq![swap[0]]);
                lemma_after_one(loaded, swap[0], ReplyView::Nothing);
            },
            Err(_) => {},
        }
        assert(after.shaders =~= wanted.shaders);
        assert(after.programs =~= wanted.programs);
    }
}

} // verus!
