//! A linked program, and the scope in which it is the current one.

use crate::command::{views, Command, CommandView, Reply, NONE, NO_LOCATION};
use crate::error::{Error, ErrorView};
use crate::load::Load;
use vstd::prelude::*;

verus! {

/// A linked program as a mathematical value.
pub struct ShaderProgramView {
    /// The name of the program object. It always names a program that linked.
    pub id: u32,
    pub vertex_filename: Seq<char>,
    pub fragment_filename: Seq<char>,
}

impl ShaderProgramView {
    /// The program after the outcome of a load of its files is taken over: a
    /// load that linked puts its program object in, a load that failed
    /// changes nothing.
    pub open spec fn reloaded(self, outcome: Result<u32, ErrorView>) -> ShaderProgramView {
        match outcome {
            Ok(id) => ShaderProgramView { id, ..self },
            Err(_) => self,
        }
    }

    /// What is carried out when the outcome of a load is taken over: the old
    /// program object is released if the load linked, and nothing is done if
    /// it failed.
    pub open spec fn swap_commands(self, outcome: Result<u32, ErrorView>) -> Seq<CommandView> {
        match outcome {
            Ok(_) => seq![CommandView::DeleteProgram { program: self.id }],
            Err(_) => Seq::empty(),
        }
    }
}

/// A program that linked, together with the two files it was made from.
///
/// The files never change. The program object changes only when a reload
/// succeeds: a failed reload leaves the value as it was.
#[derive(Debug)]
pub struct ShaderProgram {
    id: u32,
    vertex_filename: String,
    fragment_filename: String,
}

impl View for ShaderProgram {
    type V = ShaderProgramView;

    closed spec fn view(&self) -> ShaderProgramView {
        ShaderProgramView {
            id: self.id,
            vertex_filename: self.vertex_filename@,
            fragment_filename: self.fragment_filename@,
        }
    }
}

/// A program while it is the current one. Uniforms can be set only through it.
#[derive(Debug)]
pub struct ActivatedShader {
    id: u32,
}

/// What is carried out for a scope in which `program` is current: the program
/// is bound, the body runs, and the binding is taken back.
pub open spec fn scoped(program: u32, body: Seq<CommandView>) -> Seq<CommandView> {
    seq![CommandView::UseProgram { program }] + body + seq![
        CommandView::UseProgram { program: NONE },
    ]
}

/// Whether a uniform name can be handed to the driver, which reads it up to
/// the first NUL character.
pub open spec fn nameable(name: Seq<char>) -> bool {
    !name.contains('\0')
}

impl ShaderProgram {
    /// Makes a program of a finished load: the program that linked, or the
    /// failure that ended the load.
    pub fn new(load: Load) -> (made: Result<ShaderProgram, Error>)
        requires
            load@.finished(),
        ensures
            match made {
                Ok(program) => load@.outcome == Some(
                    Ok::<u32, ErrorView>(program@.id),
                ) && program@.vertex_filename == load@.vertex_filename
                    && program@.fragment_filename == load@.fragment_filename,
                Err(error) => load@.outcome == Some(Err::<u32, ErrorView>(error@)),
            },
    {
        let (vertex_filename, fragment_filename, outcome) = load.finish();
        match outcome {
            Ok(id) => Ok(ShaderProgram { id, vertex_filename, fragment_filename }),
            Err(error) => Err(error),
        }
    }

    /// The name of the program object.
    pub fn id(&self) -> (id: u32)
        ensures
            id == self@.id,
    {
        self.id
    }

    /// The file that holds the vertex stage.
    pub fn vertex_filename(&self) -> (name: &str)
        ensures
            name@ == self@.vertex_filename,
    {
        self.vertex_filename.as_str()
    }

    /// The file that holds the fragment stage.
    pub fn fragment_filename(&self) -> (name: &str)
        ensures
            name@ == self@.fragment_filename,
    {
        self.fragment_filename.as_str()
    }

    /// Opens a load of this program's own two files.
    pub fn begin_reload(&self) -> (opened: (Load, Vec<Command>))
        ensures
            opened.0@ == crate::load::LoadView::start(
                self@.vertex_filename,
                self@.fragment_filename,
            ),
            views(opened.1@) == opened.0@.first_batch(),
    {
        Load::begin(self.vertex_filename.as_str(), self.fragment_filename.as_str())
    }

    /// Takes over the outcome of a finished load of this program's files.
    ///
    /// If the load linked, its program replaces the current one and the batch
    /// that is returned releases the old one. If it failed, the failure is
    /// returned and the program stays exactly as it was.
    pub fn reload(&mut self, load: Load) -> (swapped: Result<Vec<Command>, Error>)
        requires
            load@.finished(),
            load@.vertex_filename == old(self)@.vertex_filename,
            load@.fragment_filename == old(self)@.fragment_filename,
        ensures
            final(self)@ == old(self)@.reloaded(load@.outcome.unwrap()),
            match swapped {
                Ok(batch) => load@.outcome.unwrap().is_ok() && views(batch@) == old(
                    self,
                )@.swap_commands(load@.outcome.unwrap()),
                Err(error) => load@.outcome == Some(Err::<u32, ErrorView>(error@)),
            },
    {
        let (_, _, outcome) = load.finish();
        match outcome {
            Ok(id) => {
                let batch = vec![Command::DeleteProgram { program: self.id }];
                assert(views(batch@) =~= self@.swap_commands(Ok(id)));
                self.id = id;
                Ok(batch)
            },
            Err(error) => Err(error),
        }
    }

    /// Gives up the program: the command that releases its program object.
    pub fn release(self) -> (command: Command)
        ensures
            command@ == (CommandView::DeleteProgram { program: self@.id }),
    {
        Command::DeleteProgram { program: self.id }
    }

    /// Runs `f` in a scope in which this program is current.
    ///
    /// The batch binds the program, holds what `f` asked for, and ends by
    /// taking the binding back. It does so whether `f` succeeds or fails; a
    /// failure of `f` is handed on beside the batch.
    pub fn activate<F>(&self, f: F) -> (out: (Vec<Command>, Result<(), Error>)) where
        F: FnOnce(&ActivatedShader) -> Result<Vec<Command>, Error>,

        requires
            f.requires((&ActivatedShader::bound(self@.id),)),
        ensures
            views(out.0@).first() == (CommandView::UseProgram { program: self@.id }),
            views(out.0@).last() == (CommandView::UseProgram { program: NONE }),
            exists|r: Result<Vec<Command>, Error>|
                f.ensures((&ActivatedShader::bound(self@.id),), r) && match r {
                    Ok(body) => out.1.is_ok() && views(out.0@) == scoped(self@.id, views(body@)),
                    Err(error) => out.1 == Err::<(), Error>(error) && views(out.0@) == scoped(
                        self@.id,
                        Seq::empty(),
                    ),
                },
    {
        let (activated, bind) = ActivatedShader::new(self.id);
        let mut batch = vec![bind];
        let r = f(&activated);
        match r {
            Ok(mut body) => {
                let ghost before = body@;
                batch.append(&mut body);
                batch.push(activated.deactivate());
                assert(views(batch@) =~= scoped(self@.id, views(before)));
                (batch, Ok(()))
            },
            Err(error) => {
                batch.push(activated.deactivate());
                assert(views(batch@) =~= scoped(self@.id, Seq::empty()));
                (batch, Err(error))
            },
        }
    }
}

impl ActivatedShader {
    /// The scope of the program object `id`.
    pub closed spec fn bound(id: u32) -> ActivatedShader {
        ActivatedShader { id }
    }

    /// The program object that is current in this scope.
    pub closed spec fn program(&self) -> u32 {
        self.id
    }

    /// Opens the scope of a program object: the scope, and the command that
    /// makes the program current.
    pub fn new(id: u32) -> (opened: (ActivatedShader, Command))
        ensures
            opened.0 == ActivatedShader::bound(id),
            opened.0.program() == id,
            opened.1@ == (CommandView::UseProgram { program: id }),
    {
        (ActivatedShader { id }, Command::UseProgram { program: id })
    }

    /// The command that ends the scope: no program is current after it.
    pub fn deactivate(&self) -> (command: Command)
        ensures
            command@ == (CommandView::UseProgram { program: NONE }),
    {
        Command::UseProgram { program: NONE }
    }

    /// Asks where the uniform `name` lives in the program of this scope.
    ///
    /// A name with a NUL character in it cannot be a uniform of any program.
    pub fn location(&self, name: &str) -> (query: Result<Command, Error>)
        ensures
            match query {
                Ok(command) => nameable(name@) && command@ == (CommandView::GetUniformLocation {
                    program: self.program(),
                    name: name@,
                }),
                Err(error) => !nameable(name@) && error@ == (ErrorView::UniformNotFound {
                    name: name@,
                }),
            },
    {
        if has_nul(name) {
            Err(Error::UniformNotFound { name: name.to_owned() })
        } else {
            Ok(Command::GetUniformLocation { program: self.id, name: name.to_owned() })
        }
    }

    /// Sets the uniform `name` to four floats, given as their bit patterns,
    /// once the driver has replied to the query of its location.
    ///
    /// Nothing is written if the driver did not find the name.
    pub fn set_float4(&self, name: &str, found: &Reply, v0: u32, v1: u32, v2: u32, v3: u32) -> (set:
        Result<Command, Error>)
        ensures
            match set {
                Ok(command) => found@.location() != NO_LOCATION && command@ == (
                CommandView::Uniform4f { location: found@.location(), v0, v1, v2, v3 }),
                Err(error) => found@.location() == NO_LOCATION && error@ == (
                ErrorView::UniformNotFound { name: name@ }),
            },
    {
        let location = found.location();
        if location == NO_LOCATION {
            Err(Error::UniformNotFound { name: name.to_owned() })
        } else {
            Ok(Command::Uniform4f { location, v0, v1, v2, v3 })
        }
    }
}

/// Whether a text holds a NUL character.
fn has_nul(text: &str) -> (found: bool)
    ensures
        found == !nameable(text@),
{
    let n = text.unicode_len();
    let mut i: usize = 0;
    while i < n
        invariant
            i <= n,
            n == text@.len(),
            forall|j: int| 0 <= j < i ==> text@[j] != '\0',
        decreases n - i,
    {
        if text.get_char(i) == '\0' {
            return true;
        }
        i += 1;
    }
    false
}

} // verus!
