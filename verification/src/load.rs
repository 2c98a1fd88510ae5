//! Loading a program: reading the two source files, compiling each stage and
//! linking them, one batch of commands at a time.
//!
//! A [`Load`] decides; it performs nothing. The caller carries out each batch
//! and reports the reply of its last command to [`Load::advance`], until the
//! load is finished. Every shader object the load creates is deleted again by
//! its own last batch, and a program object outlives the load only if it linked.

use crate::command::{views, Command, CommandView, Reply, ReplyView, Stage, LOG_CAPACITY, NONE};
use crate::error::{Error, ErrorView};
use crate::text::{clean_log, info_log_to_str};
use vstd::prelude::*;

verus! {

/// What a load is waiting for.
#[derive(Clone, Copy, Debug, PartialEq, Eq, Structural)]
pub enum Phase {
    /// The text of the vertex file.
    ReadVertex,
    /// The text of the fragment file.
    ReadFragment,
    /// The name of the vertex shader object.
    CreateVertex,
    /// The compile status of the vertex shader.
    VertexStatus,
    /// The diagnostics of the failed vertex shader.
    VertexLog,
    /// The name of the fragment shader object.
    CreateFragment,
    /// The compile status of the fragment shader.
    FragmentStatus,
    /// The diagnostics of the failed fragment shader.
    FragmentLog,
    /// The name of the program object.
    CreateProgram,
    /// The link status of the program.
    LinkStatus,
    /// The diagnostics of the failed link.
    LinkLog,
}

/// The state of a load as a mathematical value.
pub struct LoadView {
    pub phase: Phase,
    pub vertex_filename: Seq<char>,
    pub fragment_filename: Seq<char>,
    pub vertex_source: Seq<char>,
    pub fragment_source: Seq<char>,
    pub vertex_shader: u32,
    pub fragment_shader: u32,
    pub program: u32,
    /// `None` while the load is under way; afterwards the linked program or the failure.
    pub outcome: Option<Result<u32, ErrorView>>,
}

/// The commands that give a shader object its source and compile it.
pub open spec fn compile_commands(shader: u32, source: Seq<char>) -> Seq<CommandView> {
    seq![
        CommandView::ShaderSource { shader, source },
        CommandView::CompileShader { shader },
        CommandView::GetCompileStatus { shader },
    ]
}

/// The commands that attach two compiled shaders to a program and link it.
pub open spec fn link_commands(program: u32, vertex: u32, fragment: u32) -> Seq<CommandView> {
    seq![
        CommandView::AttachShader { program, shader: vertex },
        CommandView::AttachShader { program, shader: fragment },
        CommandView::LinkProgram { program },
        CommandView::GetLinkStatus { program },
    ]
}

impl LoadView {
    /// A load that has not asked for anything yet.
    pub open spec fn start(vertex_filename: Seq<char>, fragment_filename: Seq<char>) -> LoadView {
        LoadView {
            phase: Phase::ReadVertex,
            vertex_filename,
            fragment_filename,
            vertex_source: Seq::empty(),
            fragment_source: Seq::empty(),
            vertex_shader: NONE,
            fragment_shader: NONE,
            program: NONE,
            outcome: None,
        }
    }

    /// The batch that opens a load.
    pub open spec fn first_batch(self) -> Seq<CommandView> {
        seq![CommandView::ReadFile { path: self.vertex_filename }]
    }

    pub open spec fn finished(self) -> bool {
        self.outcome.is_some()
    }

    /// The same load, brought to its end.
    pub open spec fn end(self, outcome: Result<u32, ErrorView>) -> LoadView {
        LoadView { outcome: Some(outcome), ..self }
    }

    /// The same load in another phase.
    pub open spec fn at(self, phase: Phase) -> LoadView {
        LoadView { phase, ..self }
    }

    /// The state after a reply, and the batch to carry out next.
    ///
    /// A reply of another kind than the phase waits for counts as the failure of
    /// what was asked: no text, no object, no success, no diagnostics.
    pub open spec fn step(self, reply: ReplyView) -> (LoadView, Seq<CommandView>) {
        if self.finished() {
            (self, Seq::empty())
        } else {
            match self.phase {
                Phase::ReadVertex => match reply.text() {
                    Some(text) => (
                        LoadView { vertex_source: text, ..self.at(Phase::ReadFragment) },
                        seq![CommandView::ReadFile { path: self.fragment_filename }],
                    ),
                    None => (
                        self.end(Err(ErrorView::FileRead { path: self.vertex_filename })),
                        Seq::empty(),
                    ),
                },
                Phase::ReadFragment => match reply.text() {
                    Some(text) => (
                        LoadView { fragment_source: text, ..self.at(Phase::CreateVertex) },
                        seq![CommandView::CreateShader { stage: Stage::Vertex }],
                    ),
                    None => (
                        self.end(Err(ErrorView::FileRead { path: self.fragment_filename })),
                        Seq::empty(),
                    ),
                },
                Phase::CreateVertex => (
                    LoadView { vertex_shader: reply.handle(), ..self.at(Phase::VertexStatus) },
                    compile_commands(reply.handle(), self.vertex_source),
                ),
                Phase::VertexStatus => if reply.succeeded() {
                    (
                        self.at(Phase::CreateFragment),
                        seq![CommandView::CreateShader { stage: Stage::Fragment }],
                    )
                } else {
                    (
                        self.at(Phase::VertexLog),
                        seq![
                            CommandView::GetShaderInfoLog {
                                shader: self.vertex_shader,
                                capacity: LOG_CAPACITY,
                            },
                        ],
                    )
                },
                Phase::VertexLog => (
                    self.end(
                        Err(
                            ErrorView::Compile {
                                stage: Stage::Vertex,
                                log: clean_log(reply.log()),
                            },
                        ),
                    ),
                    seq![CommandView::DeleteShader { shader: self.vertex_shader }],
                ),
                Phase::CreateFragment => (
                    LoadView { fragment_shader: reply.handle(), ..self.at(Phase::FragmentStatus) },
                    compile_commands(reply.handle(), self.fragment_source),
                ),
                Phase::FragmentStatus => if reply.succeeded() {
                    (self.at(Phase::CreateProgram), seq![CommandView::CreateProgram])
                } else {
                    (
                        self.at(Phase::FragmentLog),
                        seq![
                            CommandView::GetShaderInfoLog {
                                shader: self.fragment_shader,
                                capacity: LOG_CAPACITY,
                            },
                        ],
                    )
                },
                Phase::FragmentLog => (
                    self.end(
                        Err(
                            ErrorView::Compile {
                                stage: Stage::Fragment,
                                log: clean_log(reply.log()),
                            },
                        ),
                    ),
                    seq![
                        CommandView::DeleteShader { shader: self.vertex_shader },
                        CommandView::DeleteShader { shader: self.fragment_shader },
                    ],
                ),
                Phase::CreateProgram => (
                    LoadView { program: reply.handle(), ..self.at(Phase::LinkStatus) },
                    link_commands(reply.handle(), self.vertex_shader, self.fragment_shader),
                ),
                Phase::LinkStatus => if reply.succeeded() {
                    (
                        self.end(Ok(self.program)),
                        seq![
                            CommandView::DeleteShader { shader: self.vertex_shader },
                            CommandView::DeleteShader { shader: self.fragment_shader },
                        ],
                    )
                } else {
                    (
                        self.at(Phase::LinkLog),
                        seq![
                            CommandView::GetProgramInfoLog {
                                program: self.program,
                                capacity: LOG_CAPACITY,
                            },
                        ],
                    )
                },
                Phase::LinkLog => (
                    self.end(Err(ErrorView::Link { log: clean_log(reply.log()) })),
                    seq![
                        CommandView::DeleteShader { shader: self.vertex_shader },
                        CommandView::DeleteShader { shader: self.fragment_shader },
                        CommandView::DeleteProgram { program: self.program },
                    ],
                ),
            }
        }
    }
}

impl LoadView {
    /// The state of the load after a row of replies.
    pub open spec fn run(self, replies: Seq<ReplyView>) -> LoadView
        decreases replies.len(),
    {
        if replies.len() == 0 {
            self
        } else {
            self.step(replies.first()).0.run(replies.drop_first())
        }
    }

    /// How a load of two files ends, told from the replies alone: `None` as
    /// long as the replies do not take it to its end.
    ///
    /// The replies are, in order: the two texts, then for each stage the name
    /// of its shader object and its compile status, then the name of the
    /// program object and its link status. The first of them that reports a
    /// failure ends the load: an unreadable file at once, a failed status with
    /// the diagnostics that come as the reply after it.
    pub open spec fn verdict(
        vertex_filename: Seq<char>,
        fragment_filename: Seq<char>,
        replies: Seq<ReplyView>,
    ) -> Option<Result<u32, ErrorView>> {
        if replies.len() < 1 {
            None
        } else if replies[0].text().is_none() {
            Some(Err(ErrorView::FileRead { path: vertex_filename }))
        } else if replies.len() < 2 {
            None
        } else if replies[1].text().is_none() {
            Some(Err(ErrorView::FileRead { path: fragment_filename }))
        } else if replies.len() < 4 {
            None
        } else if !replies[3].succeeded() {
            if replies.len() < 5 {
                None
            } else {
                Some(
                    Err(
                        ErrorView::Compile {
                            stage: Stage::Vertex,
                            log: clean_log(replies[4].log()),
                        },
                    ),
                )
            }
        } else if replies.len() < 6 {
            None
        } else if !replies[5].succeeded() {
            if replies.len() < 7 {
                None
            } else {
                Some(
                    Err(
                        ErrorView::Compile {
                            stage: Stage::Fragment,
                            log: clean_log(replies[6].log()),
                        },
                    ),
                )
            }
        } else if replies.len() < 8 {
            None
        } else if !replies[7].succeeded() {
            if replies.len() < 9 {
                None
            } else {
                Some(Err(ErrorView::Link { log: clean_log(replies[8].log()) }))
            }
        } else {
            Some(Ok(replies[6].handle()))
        }
    }
}

/// A load that has come to its end stays as it is, whatever is replied to it.
pub proof fn lemma_finished_load_stays(load: LoadView, replies: Seq<ReplyView>)
    requires
        load.finished(),
    ensures
        load.run(replies) == load,
    decreases replies.len(),
{
    if replies.len() > 0 {
        lemma_finished_load_stays(load, replies.drop_first());
    }
}

/// To run a load on a row of replies is to take one step with the first
/// reply and to run what comes of it on the rest.
proof fn lemma_run_unfolds(load: LoadView, replies: Seq<ReplyView>)
    requires
        replies.len() > 0,
    ensures
        load.run(replies) == load.step(replies[0]).0.run(replies.skip(1)),
{
    assert(replies.drop_first() =~= replies.skip(1));
}

/// A load ends as its replies say: it finishes exactly when the replies
/// reach a verdict, and its outcome is that verdict.
pub proof fn lemma_load_ends_as_replied(
    vertex_filename: Seq<char>,
    fragment_filename: Seq<char>,
    replies: Seq<ReplyView>,
)
    ensures
        LoadView::start(vertex_filename, fragment_filename).run(replies).outcome
            == LoadView::verdict(vertex_filename, fragment_filename, replies),
{
    let s0 = LoadView::start(vertex_filename, fragment_filename);
    assert(replies.skip(0) =~= replies);
    if replies.len() > 0 {
        assert(replies.skip(0)[0] == replies[0]);
        assert(replies.skip(0).skip(1) =~= replies.skip(1));
        lemma_run_unfolds(s0, replies.skip(0));
        let s1 = s0.step(replies[0]).0;
        if s1.finished() {
            lemma_finished_load_stays(s1, replies.skip(1));
        } else {
            if replies.len() > 1 {
                assert(replies.skip(1)[0] == replies[1]);
                assert(replies.skip(1).skip(1) =~= replies.skip(2));
                lemma_run_unfolds(s1, replies.skip(1));
                let s2 = s1.step(replies[1]).0;
                if s2.finished() {
                    lemma_finished_load_stays(s2, replies.skip(2));
                } else {
                    if replies.len() > 2 {
                        assert(replies.skip(2)[0] == replies[2]);
                        assert(replies.skip(2).skip(1) =~= replies.skip(3));
                        lemma_run_unfolds(s2, replies.skip(2));
                        let s3 = s2.step(replies[2]).0;
                        if s3.finished() {
                            lemma_finished_load_stays(s3, replies.skip(3));
                        } else {
                            if replies.len() > 3 {
                                assert(replies.skip(3)[0] == replies[3]);
                                assert(replies.skip(3).skip(1) =~= replies.skip(4));
                                lemma_run_unfolds(s3, replies.skip(3));
                                let s4 = s3.step(replies[3]).0;
                                if s4.finished() {
                                    lemma_finished_load_stays(s4, replies.skip(4));
                                } else {
                                    if replies.len() > 4 {
                                        assert(replies.skip(4)[0] == replies[4]);
                                        assert(replies.skip(4).skip(1) =~= replies.skip(5));
                                        lemma_run_unfolds(s4, replies.skip(4));
                                        let s5 = s4.step(replies[4]).0;
                                        if s5.finished() {
                                            lemma_finished_load_stays(s5, replies.skip(5));
                                        } else {
                                            if replies.len() > 5 {
                                                assert(replies.skip(5)[0] == replies[5]);
                                                assert(replies.skip(5).skip(1) =~= replies.skip(6));
                                                lemma_run_unfolds(s5, replies.skip(5));
                                                let s6 = s5.step(replies[5]).0;
                                                if s6.finished() {
                                                    lemma_finished_load_stays(s6, replies.skip(6));
                                                } else {
                                                    if replies.len() > 6 {
                                                        assert(replies.skip(6)[0] == replies[6]);
                                                        assert(replies.skip(6).skip(1) =~= replies.skip(7));
                                                        lemma_run_unfolds(s6, replies.skip(6));
                                                        let s7 = s6.step(replies[6]).0;
                                                        if s7.finished() {
                                                            lemma_finished_load_stays(s7, replies.skip(7));
                                                        } else {
                                                            if replies.len() > 7 {
                                                                assert(replies.skip(7)[0] == replies[7]);
                                                                assert(replies.skip(7).skip(1) =~= replies.skip(8));
                                                                lemma_run_unfolds(s7, replies.skip(7));
                                                                let s8 = s7.step(replies[7]).0;
                                                                if s8.finished() {
                                                                    lemma_finished_load_stays(s8, replies.skip(8));
                                                                } else {
                                                                    if replies.len() > 8 {
                                                                        assert(replies.skip(8)[0] == replies[8]);
                                                                        assert(replies.skip(8).skip(1) =~= replies.skip(9));
                                                                        lemma_run_unfolds(s8, replies.skip(8));
                                                                        let s9 = s8.step(replies[8]).0;
                                                                        if s9.finished() {
                                                                            lemma_finished_load_stays(s9, replies.skip(9));
                                                                        }
                                                                    }
                                                                }
                                                            }
                                                        }
                                                    }
                                                }
                                            }
                                        }
                                    }
                                }
                            }
                        }
                    }
                }
            }
        }
    }
}

/// The meaning of an outcome.
pub open spec fn outcome_view(outcome: Result<u32, Error>) -> Result<u32, ErrorView> {
    match outcome {
        Ok(program) => Ok(program),
        Err(error) => Err(error@),
    }
}

/// A load under way, or finished.
#[derive(Debug)]
pub struct Load {
    phase: Phase,
    vertex_filename: String,
    fragment_filename: String,
    vertex_source: String,
    fragment_source: String,
    vertex_shader: u32,
    fragment_shader: u32,
    program: u32,
    outcome: Option<Result<u32, Error>>,
}

impl View for Load {
    type V = LoadView;

    closed spec fn view(&self) -> LoadView {
        LoadView {
            phase: self.phase,
            vertex_filename: self.vertex_filename@,
            fragment_filename: self.fragment_filename@,
            vertex_source: self.vertex_source@,
            fragment_source: self.fragment_source@,
            vertex_shader: self.vertex_shader,
            fragment_shader: self.fragment_shader,
            program: self.program,
            outcome: match self.outcome {
                Some(outcome) => Some(outcome_view(outcome)),
                None => None,
            },
        }
    }
}

/// The batch that gives a shader object its source and compiles it.
fn compile_batch(shader: u32, source: &String) -> (batch: Vec<Command>)
    ensures
        views(batch@) == compile_commands(shader, source@),
{
    let batch = vec![
        Command::ShaderSource { shader, source: source.clone() },
        Command::CompileShader { shader },
        Command::GetCompileStatus { shader },
    ];
    assert(views(batch@) =~= compile_commands(shader, source@));
    batch
}

/// The batch that attaches two compiled shaders to a program and links it.
fn link_batch(program: u32, vertex: u32, fragment: u32) -> (batch: Vec<Command>)
    ensures
        views(batch@) == link_commands(program, vertex, fragment),
{
    let batch = vec![
        Command::AttachShader { program, shader: vertex },
        Command::AttachShader { program, shader: fragment },
        Command::LinkProgram { program },
        Command::GetLinkStatus { program },
    ];
    assert(views(batch@) =~= link_commands(program, vertex, fragment));
    batch
}

impl Load {
    /// Opens a load of the program made of two source files, and says what to do first.
    pub fn begin(vertex_filename: &str, fragment_filename: &str) -> (opened: (Load, Vec<Command>))
        ensures
            opened.0@ == LoadView::start(vertex_filename@, fragment_filename@),
            views(opened.1@) == opened.0@.first_batch(),
    {
        let load = Load {
            phase: Phase::ReadVertex,
            vertex_filename: vertex_filename.to_owned(),
            fragment_filename: fragment_filename.to_owned(),
            vertex_source: String::new(),
            fragment_source: String::new(),
            vertex_shader: NONE,
            fragment_shader: NONE,
            program: NONE,
            outcome: None,
        };
        let batch = vec![Command::ReadFile { path: load.vertex_filename.clone() }];
        assert(views(batch@) =~= load@.first_batch());
        (load, batch)
    }

    /// Whether the load has come to its end.
    pub fn is_finished(&self) -> (done: bool)
        ensures
            done == self@.finished(),
    {
        self.outcome.is_some()
    }

    /// Takes a finished load apart: its two files and its outcome.
    pub fn finish(self) -> (parts: (String, String, Result<u32, Error>))
        requires
            self@.finished(),
        ensures
            parts.0@ == self@.vertex_filename,
            parts.1@ == self@.fragment_filename,
            self@.outcome == Some(outcome_view(parts.2)),
    {
        match self.outcome {
            Some(outcome) => (self.vertex_filename, self.fragment_filename, outcome),
            None => (self.vertex_filename, self.fragment_filename, Ok(NONE)),
        }
    }

    /// Takes in the reply to the last batch and says what to do next.
    ///
    /// After the batch that ends the load has been carried out, nothing of the
    /// load is left on the GPU but the program, if it linked.
    pub fn advance(&mut self, reply: Reply) -> (batch: Vec<Command>)
        ensures
            final(self)@ == old(self)@.step(reply@).0,
            views(batch@) == old(self)@.step(reply@).1,
    {
        if self.outcome.is_some() {
            let batch = Vec::new();
            assert(views(batch@) =~= Seq::empty());
            return batch;
        }
        match self.phase {
            Phase::ReadVertex => match reply.into_text() {
                Some(text) => {
                    self.vertex_source = text;
                    self.phase = Phase::ReadFragment;
                    let batch = vec![Command::ReadFile { path: self.fragment_filename.clone() }];
                    assert(views(batch@) =~= old(self)@.step(reply@).1);
                    batch
                },
                None => {
                    self.outcome = Some(
                        Err(Error::FileRead { path: self.vertex_filename.clone() }),
                    );
                    let batch = Vec::new();
                    assert(views(batch@) =~= Seq::empty());
                    batch
                },
            },
            Phase::ReadFragment => match reply.into_text() {
                Some(text) => {
                    self.fragment_source = text;
                    self.phase = Phase::CreateVertex;
                    let batch = vec![Command::CreateShader { stage: Stage::Vertex }];
                    assert(views(batch@) =~= old(self)@.step(reply@).1);
                    batch
                },
                None => {
                    self.outcome = Some(
                        Err(Error::FileRead { path: self.fragment_filename.clone() }),
                    );
                    let batch = Vec::new();
                    assert(views(batch@) =~= Seq::empty());
                    batch
                },
            },
            Phase::CreateVertex => {
                self.vertex_shader = reply.handle();
                self.phase = Phase::VertexStatus;
                compile_batch(self.vertex_shader, &self.vertex_source)
            },
            Phase::VertexStatus => {
                if reply.succeeded() {
                    self.phase = Phase::CreateFragment;
                    let batch = vec![Command::CreateShader { stage: Stage::Fragment }];
                    assert(views(batch@) =~= old(self)@.step(reply@).1);
                    batch
                } else {
                    self.phase = Phase::VertexLog;
                    let batch = vec![
                        Command::GetShaderInfoLog {
                            shader: self.vertex_shader,
                            capacity: LOG_CAPACITY,
                        },
                    ];
                    assert(views(batch@) =~= old(self)@.step(reply@).1);
                    batch
                }
            },
            Phase::VertexLog => {
                let log = info_log_to_str(&reply.into_log());
                self.outcome = Some(Err(Error::Compile { stage: Stage::Vertex, log }));
                let batch = vec![Command::DeleteShader { shader: self.vertex_shader }];
                assert(views(batch@) =~= old(self)@.step(reply@).1);
                batch
            },
            Phase::CreateFragment => {
                self.fragment_shader = reply.handle();
                self.phase = Phase::FragmentStatus;
                compile_batch(self.fragment_shader, &self.fragment_source)
            },
            Phase::FragmentStatus => {
                if reply.succeeded() {
                    self.phase = Phase::CreateProgram;
                    let batch = vec![Command::CreateProgram];
                    assert(views(batch@) =~= old(self)@.step(reply@).1);
                    batch
                } else {
                    self.phase = Phase::FragmentLog;
                    let batch = vec![
                        Command::GetShaderInfoLog {
                            shader: self.fragment_shader,
                            capacity: LOG_CAPACITY,
                        },
                    ];
                    assert(views(batch@) =~= old(self)@.step(reply@).1);
                    batch
                }
            },
            Phase::FragmentLog => {
                let log = info_log_to_str(&reply.into_log());
                self.outcome = Some(Err(Error::Compile { stage: Stage::Fragment, log }));
                let batch = vec![
                    Command::DeleteShader { shader: self.vertex_shader },
                    Command::DeleteShader { shader: self.fragment_shader },
                ];
                assert(views(batch@) =~= old(self)@.step(reply@).1);
                batch
            },
            Phase::CreateProgram => {
                self.program = reply.handle();
                self.phase = Phase::LinkStatus;
                link_batch(self.program, self.vertex_shader, self.fragment_shader)
            },
            Phase::LinkStatus => {
                if reply.succeeded() {
                    self.outcome = Some(Ok(self.program));
                    let batch = vec![
                        Command::DeleteShader { shader: self.vertex_shader },
                        Command::DeleteShader { shader: self.fragment_shader },
                    ];
                    assert(views(batch@) =~= old(self)@.step(reply@).1);
                    batch
                } else {
                    self.phase = Phase::LinkLog;
                    let batch = vec![
                        Command::GetProgramInfoLog {
                            program: self.program,
                            capacity: LOG_CAPACITY,
                        },
                    ];
                    assert(views(batch@) =~= old(self)@.step(reply@).1);
                    batch
                }
            },
            Phase::LinkLog => {
                let log = info_log_to_str(&reply.into_log());
                self.outcome = Some(Err(Error::Link { log }));
                let batch = vec![
                    Command::DeleteShader { shader: self.vertex_shader },
                    Command::DeleteShader { shader: self.fragment_shader },
                    Command::DeleteProgram { program: self.program },
                ];
                assert(views(batch@) =~= old(self)@.step(reply@).1);
                batch
            },
        }
    }
}

} // verus!
