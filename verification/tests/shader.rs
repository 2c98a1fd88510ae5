use hotshader::command::{Command, Reply, Stage};
use hotshader::error::Error;
use hotshader::geometry::Geometry;
use hotshader::load::Load;
use hotshader::shader::{ActivatedShader, ShaderProgram};

fn text(s: &str) -> Reply {
    Reply::Text(s.to_string())
}

/// A load of `basic.vert` and `basic.frag` that linked into the program `id`.
fn linked(id: u32) -> Load {
    let (mut load, _) = Load::begin("basic.vert", "basic.frag");
    for reply in [
        text("v"),
        text("f"),
        Reply::Handle(id + 1),
        Reply::Status(1),
        Reply::Handle(id + 2),
        Reply::Status(1),
        Reply::Handle(id),
        Reply::Status(1),
    ] {
        load.advance(reply);
    }
    assert!(load.is_finished());
    load
}

/// A load of `basic.vert` and `basic.frag` whose fragment stage did not compile.
fn broken_fragment(load: &mut Load) {
    for reply in [
        text("v"),
        text("f {"),
        Reply::Handle(21),
        Reply::Status(1),
        Reply::Handle(22),
        Reply::Status(0),
        Reply::Log(b"0:1(4): error: syntax error, unexpected end of file\n\0".to_vec()),
    ] {
        load.advance(reply);
    }
    assert!(load.is_finished());
}

#[test]
fn program_is_made_of_a_load_that_linked() {
    let program = ShaderProgram::new(linked(10)).unwrap();
    assert_eq!(program.id(), 10);
    assert_eq!(program.vertex_filename(), "basic.vert");
    assert_eq!(program.fragment_filename(), "basic.frag");
}

#[test]
fn program_is_not_made_of_a_load_that_failed() {
    let (mut load, _) = Load::begin("basic.vert", "basic.frag");
    broken_fragment(&mut load);
    match ShaderProgram::new(load) {
        Err(Error::Compile { stage, log }) => {
            assert_eq!(stage, Stage::Fragment);
            assert_eq!(log, "0:1(4): error: syntax error, unexpected end of file");
        },
        other => panic!("unexpected {:?}", other),
    }
}

#[test]
fn reload_starts_from_the_programs_own_files() {
    let program = ShaderProgram::new(linked(10)).unwrap();
    let (load, first) = program.begin_reload();
    assert!(!load.is_finished());
    assert_eq!(first, vec![Command::ReadFile { path: "basic.vert".to_string() }]);
}

#[test]
fn reload_that_links_swaps_the_program_and_releases_the_old_one() {
    let mut program = ShaderProgram::new(linked(10)).unwrap();
    let swapped = program.reload(linked(30));
    assert_eq!(swapped, Ok(vec![Command::DeleteProgram { program: 10 }]));
    assert_eq!(program.id(), 30);
    assert_eq!(program.vertex_filename(), "basic.vert");
    assert_eq!(program.fragment_filename(), "basic.frag");
}

#[test]
fn reload_that_fails_keeps_the_program() {
    let mut program = ShaderProgram::new(linked(10)).unwrap();
    let vertices = [0u32; 9];
    let mut upload = Geometry::new().add_vertices(&vertices).build().unwrap().0;
    upload.advance(Reply::Handle(1));
    upload.advance(Reply::Handle(2));
    let geometry = upload.finish();
    let before = geometry.render(&program);

    let (mut load, _) = program.begin_reload();
    broken_fragment(&mut load);
    let swapped = program.reload(load);
    assert_eq!(
        swapped,
        Err(Error::Compile {
            stage: Stage::Fragment,
            log: "0:1(4): error: syntax error, unexpected end of file".to_string(),
        })
    );
    assert_eq!(program.id(), 10);
    assert_eq!(geometry.render(&program), before);
    assert_eq!(before[0], Command::UseProgram { program: 10 });
}

#[test]
fn reload_that_cannot_read_a_file_keeps_the_program() {
    let mut program = ShaderProgram::new(linked(10)).unwrap();
    let (mut load, _) = program.begin_reload();
    load.advance(text("v"));
    load.advance(Reply::Unreadable);
    assert_eq!(
        program.reload(load),
        Err(Error::FileRead { path: "basic.frag".to_string() })
    );
    assert_eq!(program.id(), 10);
}

#[test]
fn release_deletes_the_program_object() {
    let program = ShaderProgram::new(linked(10)).unwrap();
    assert_eq!(program.release(), Command::DeleteProgram { program: 10 });
}

#[test]
fn activate_wraps_the_body_in_the_scope() {
    let program = ShaderProgram::new(linked(10)).unwrap();
    let (batch, result) = program.activate(|shader| {
        let set = shader.set_float4(
            "ourColor",
            &Reply::Location(2),
            0.0f32.to_bits(),
            1.0f32.to_bits(),
            0.0f32.to_bits(),
            1.0f32.to_bits(),
        )?;
        Ok(vec![set])
    });
    assert_eq!(result, Ok(()));
    assert_eq!(
        batch,
        vec![
            Command::UseProgram { program: 10 },
            Command::Uniform4f { location: 2, v0: 0, v1: 0x3F80_0000, v2: 0, v3: 0x3F80_0000 },
            Command::UseProgram { program: 0 },
        ]
    );
}

#[test]
fn activate_deactivates_when_the_body_fails() {
    let program = ShaderProgram::new(linked(10)).unwrap();
    let (batch, result) = program.activate(|shader| {
        let set = shader.set_float4("nowhere", &Reply::Location(-1), 0, 0, 0, 0)?;
        Ok(vec![set])
    });
    assert_eq!(result, Err(Error::UniformNotFound { name: "nowhere".to_string() }));
    assert_eq!(
        batch,
        vec![Command::UseProgram { program: 10 }, Command::UseProgram { program: 0 }]
    );
}

#[test]
fn activate_deactivates_after_an_empty_body() {
    let program = ShaderProgram::new(linked(10)).unwrap();
    let (batch, result) = program.activate(|_| Ok(Vec::new()));
    assert_eq!(result, Ok(()));
    assert_eq!(
        batch,
        vec![Command::UseProgram { program: 10 }, Command::UseProgram { program: 0 }]
    );
}

#[test]
fn activated_shader_binds_its_program_and_unbinds_to_none() {
    let (shader, bind) = ActivatedShader::new(5);
    assert_eq!(bind, Command::UseProgram { program: 5 });
    assert_eq!(shader.deactivate(), Command::UseProgram { program: 0 });
}

#[test]
fn location_asks_the_program_of_the_scope() {
    let (shader, _) = ActivatedShader::new(5);
    assert_eq!(
        shader.location("ourColor"),
        Ok(Command::GetUniformLocation { program: 5, name: "ourColor".to_string() })
    );
    assert_eq!(shader.location(""), Ok(Command::GetUniformLocation { program: 5, name: String::new() }));
}

#[test]
fn location_refuses_a_name_with_a_nul_in_it() {
    let (shader, _) = ActivatedShader::new(5);
    assert_eq!(
        shader.location("our\0Color"),
        Err(Error::UniformNotFound { name: "our\0Color".to_string() })
    );
}

#[test]
fn set_float4_writes_to_the_location_that_was_found() {
    let (shader, _) = ActivatedShader::new(5);
    assert_eq!(
        shader.set_float4("c", &Reply::Location(0), 1, 2, 3, 4),
        Ok(Command::Uniform4f { location: 0, v0: 1, v1: 2, v2: 3, v3: 4 })
    );
}

#[test]
fn set_float4_fails_where_the_name_was_not_found() {
    let (shader, _) = ActivatedShader::new(5);
    assert_eq!(
        shader.set_float4("c", &Reply::Location(-1), 1, 2, 3, 4),
        Err(Error::UniformNotFound { name: "c".to_string() })
    );
    assert_eq!(
        shader.set_float4("c", &Reply::Nothing, 1, 2, 3, 4),
        Err(Error::UniformNotFound { name: "c".to_string() })
    );
}
