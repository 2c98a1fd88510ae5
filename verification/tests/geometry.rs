use hotshader::command::{BufferTarget, Command, Reply};
use hotshader::error::Error;
use hotshader::geometry::Geometry;
use hotshader::load::Load;
use hotshader::shader::ShaderProgram;

fn bits(values: &[f32]) -> Vec<u32> {
    values.iter().map(|v| v.to_bits()).collect()
}

fn program(id: u32) -> ShaderProgram {
    let (mut load, _) = Load::begin("basic.vert", "basic.frag");
    for reply in [
        Reply::Text("v".to_string()),
        Reply::Text("f".to_string()),
        Reply::Handle(1),
        Reply::Status(1),
        Reply::Handle(2),
        Reply::Status(1),
        Reply::Handle(id),
        Reply::Status(1),
    ] {
        load.advance(reply);
    }
    ShaderProgram::new(load).unwrap()
}

fn layout() -> Vec<Command> {
    vec![
        Command::VertexAttribPointer { index: 0, components: 3, stride: 12 },
        Command::EnableVertexAttribArray { index: 0 },
        Command::BindBuffer { target: BufferTarget::Array, buffer: 0 },
        Command::BindVertexArray { array: 0 },
    ]
}

#[test]
fn build_without_vertices_fails_before_anything_is_allocated() {
    match Geometry::new().build() {
        Err(error) => assert_eq!(error, Error::MissingVertices),
        Ok(_) => panic!("built without vertices"),
    }
    let indices = [0u32, 1, 2];
    match Geometry::new().add_indices(&indices).build() {
        Err(error) => assert_eq!(error, Error::MissingVertices),
        Ok(_) => panic!("built without vertices"),
    }
}

#[test]
fn triangle_without_indices_draws_three_vertices() {
    let vertices = bits(&[-0.5, -0.5, 0.0, 0.5, -0.5, 0.0, 0.0, 0.5, 0.0]);
    let (mut upload, first) = Geometry::new().add_vertices(&vertices).build().unwrap();
    assert_eq!(first, vec![Command::GenVertexArray]);
    assert!(!upload.is_finished());

    assert_eq!(upload.advance(Reply::Handle(4)), vec![Command::GenBuffer]);
    assert!(!upload.is_finished());

    let mut expected = vec![
        Command::BindVertexArray { array: 4 },
        Command::BindBuffer { target: BufferTarget::Array, buffer: 5 },
        Command::BufferData { target: BufferTarget::Array, size: 36, data: vertices.clone() },
    ];
    expected.extend(layout());
    assert_eq!(upload.advance(Reply::Handle(5)), expected);
    assert!(upload.is_finished());
    assert_eq!(upload.advance(Reply::Nothing), Vec::<Command>::new());

    let geometry = upload.finish();
    assert_eq!(geometry.vao(), 4);
    assert_eq!(
        geometry.render(&program(9)),
        vec![
            Command::UseProgram { program: 9 },
            Command::BindVertexArray { array: 4 },
            Command::DrawArrays { first: 0, count: 3 },
            Command::UseProgram { program: 0 },
        ]
    );
}

#[test]
fn quad_with_indices_draws_six_indices() {
    let vertices = bits(&[0.5, 0.5, 0.0, 0.5, -0.5, 0.0, -0.5, -0.5, 0.0, -0.5, 0.5, 0.0]);
    let indices = [0u32, 1, 3, 1, 2, 3];
    let built = Geometry::new().add_vertices(&vertices).add_indices(&indices).build();
    let (mut upload, first) = built.unwrap();
    assert_eq!(first, vec![Command::GenVertexArray]);
    assert_eq!(upload.advance(Reply::Handle(1)), vec![Command::GenBuffer]);
    assert_eq!(
        upload.advance(Reply::Handle(2)),
        vec![
            Command::BindVertexArray { array: 1 },
            Command::BindBuffer { target: BufferTarget::Array, buffer: 2 },
            Command::BufferData { target: BufferTarget::Array, size: 48, data: vertices.clone() },
            Command::GenBuffer,
        ]
    );
    assert!(!upload.is_finished());
    let mut expected = vec![
        Command::BindBuffer { target: BufferTarget::ElementArray, buffer: 3 },
        Command::BufferData {
            target: BufferTarget::ElementArray,
            size: 24,
            data: vec![0, 1, 3, 1, 2, 3],
        },
    ];
    expected.extend(layout());
    assert_eq!(upload.advance(Reply::Handle(3)), expected);
    assert!(upload.is_finished());

    let geometry = upload.finish();
    let batch = geometry.render(&program(7));
    assert_eq!(
        batch,
        vec![
            Command::UseProgram { program: 7 },
            Command::BindVertexArray { array: 1 },
            Command::DrawElements { count: 6 },
            Command::UseProgram { program: 0 },
        ]
    );
    let draws = batch
        .iter()
        .filter(|c| matches!(c, Command::DrawElements { .. } | Command::DrawArrays { .. }))
        .count();
    assert_eq!(draws, 1);
}

#[test]
fn vertex_data_travels_as_the_bits_of_the_floats() {
    let vertices = bits(&[0.5, -0.5, 0.0]);
    assert_eq!(vertices, vec![0x3F00_0000, 0xBF00_0000, 0]);
    let (mut upload, _) = Geometry::new().add_vertices(&vertices).build().unwrap();
    upload.advance(Reply::Handle(1));
    let batch = upload.advance(Reply::Handle(2));
    assert_eq!(
        batch[2],
        Command::BufferData {
            target: BufferTarget::Array,
            size: 12,
            data: vec![0x3F00_0000, 0xBF00_0000, 0],
        }
    );
}

#[test]
fn later_data_replaces_earlier_data() {
    let first = [1u32, 2, 3];
    let second = [4u32, 5, 6, 7, 8, 9];
    let (mut upload, _) =
        Geometry::new().add_vertices(&first).add_vertices(&second).build().unwrap();
    upload.advance(Reply::Handle(1));
    let batch = upload.advance(Reply::Handle(2));
    assert_eq!(
        batch[2],
        Command::BufferData { target: BufferTarget::Array, size: 24, data: second.to_vec() }
    );
}

#[test]
fn empty_index_array_still_draws_indexed() {
    let vertices = [0u32; 9];
    let indices: [u32; 0] = [];
    let (mut upload, _) =
        Geometry::new().add_vertices(&vertices).add_indices(&indices).build().unwrap();
    upload.advance(Reply::Handle(1));
    upload.advance(Reply::Handle(2));
    let batch = upload.advance(Reply::Handle(3));
    assert_eq!(
        batch[1],
        Command::BufferData { target: BufferTarget::ElementArray, size: 0, data: Vec::new() }
    );
    let geometry = upload.finish();
    assert_eq!(geometry.render(&program(7))[2], Command::DrawElements { count: 0 });
}

#[test]
fn constants_are_those_of_opengl() {
    assert_eq!(hotshader::command::STATUS_OK, gl::TRUE as i32);
    assert_ne!(hotshader::command::STATUS_OK, gl::FALSE as i32);
    assert_eq!(hotshader::command::NONE, 0);
    assert_eq!(hotshader::command::NO_LOCATION, -1);
    assert_eq!(hotshader::command::LOG_CAPACITY, 512);
    assert_eq!(hotshader::geometry::POSITION_ATTRIBUTE, 0);
    assert_eq!(hotshader::geometry::POSITION_COMPONENTS, 3);
    assert_eq!(
        hotshader::geometry::POSITION_STRIDE as usize,
        3 * std::mem::size_of::<gl::types::GLfloat>()
    );
    assert_eq!(hotshader::geometry::UNINDEXED_VERTICES, 3);
}

#[test]
fn unbuilt_geometry_has_no_vertex_array() {
    assert_eq!(Geometry::new().vao(), 0);
}
