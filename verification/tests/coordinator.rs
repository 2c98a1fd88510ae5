use hotshader::command::{Reply, Stage};
use hotshader::coordinator::{
    file_name_start, has_suffix, poll_reload, same_file_name, should_reload, stage_of_path,
};
use hotshader::hotloader::{Hotloader, WatchEvent, WRITE};
use hotshader::load::Load;
use hotshader::shader::ShaderProgram;

fn basic_program() -> ShaderProgram {
    let (mut load, _) = Load::begin("shaders/basic.vert", "shaders/basic.frag");
    for reply in [
        Reply::Text("v".to_string()),
        Reply::Text("f".to_string()),
        Reply::Handle(1),
        Reply::Status(1),
        Reply::Handle(2),
        Reply::Status(1),
        Reply::Handle(3),
        Reply::Status(1),
    ] {
        load.advance(reply);
    }
    ShaderProgram::new(load).unwrap()
}

#[test]
fn suffix_is_found_at_the_end_only() {
    assert!(has_suffix("basic.vert", ".vert"));
    assert!(has_suffix(".vert", ".vert"));
    assert!(has_suffix("anything", ""));
    assert!(has_suffix("", ""));
    assert!(!has_suffix("", "a"));
    assert!(!has_suffix("vert", ".vert"));
    assert!(!has_suffix("basic.vert.swp", ".vert"));
    assert!(!has_suffix("basic.verT", ".vert"));
    assert!(has_suffix("größe.frag", "ße.frag"));
}

#[test]
fn file_name_starts_after_the_last_slash() {
    assert_eq!(file_name_start("a/b/c.frag"), 4);
    assert_eq!(file_name_start("c.frag"), 0);
    assert_eq!(file_name_start("a/"), 2);
    assert_eq!(file_name_start("/"), 1);
    assert_eq!(file_name_start(""), 0);
    assert_eq!(file_name_start("ü/ä.frag"), 2);
}

#[test]
fn file_names_are_compared_without_their_directories() {
    assert!(same_file_name("a/x.frag", "b/c/x.frag"));
    assert!(same_file_name("x.frag", "/x.frag"));
    assert!(same_file_name("a/", "b/"));
    assert!(same_file_name("", "b/"));
    assert!(!same_file_name("a/x.frag", "a/y.frag"));
    assert!(!same_file_name("a/x.frag", "a/xx.frag"));
    assert!(!same_file_name("a/xx.frag", "a/x.frag"));
    assert!(!same_file_name("a/x.frag", "a/x.frag/"));
}

#[test]
fn stage_goes_by_the_extension() {
    assert_eq!(stage_of_path("shaders/basic.vert"), Some(Stage::Vertex));
    assert_eq!(stage_of_path("shaders/basic.frag"), Some(Stage::Fragment));
    assert_eq!(stage_of_path("shaders/basic.glsl"), None);
    assert_eq!(stage_of_path("shaders/basic.frag~"), None);
    assert_eq!(stage_of_path("shaders/basic.VERT"), None);
    assert_eq!(stage_of_path("shaders/vert"), None);
    assert_eq!(stage_of_path(""), None);
}

#[test]
fn write_to_a_source_file_calls_for_a_reload() {
    let program = basic_program();
    assert!(should_reload(&program, "/home/me/project/shaders/basic.frag"));
    assert!(should_reload(&program, "/home/me/project/shaders/basic.vert"));
    assert!(should_reload(&program, "basic.vert"));
    assert!(should_reload(&program, "shaders/basic.frag"));
}

#[test]
fn write_to_another_file_calls_for_no_reload() {
    let program = basic_program();
    assert!(!should_reload(&program, "/home/me/project/shaders/other.frag"));
    assert!(!should_reload(&program, "/home/me/project/shaders/notbasic.vert"));
    assert!(!should_reload(&program, "/home/me/project/shaders/basic.frag.swp"));
    assert!(!should_reload(&program, "/home/me/project/shaders/basic.vert~"));
    assert!(!should_reload(&program, "/home/me/project/shaders/basic"));
    assert!(!should_reload(&program, "/home/me/project/shaders/"));
    assert!(!should_reload(&program, ""));
}

#[test]
fn stage_of_the_change_picks_the_file_to_compare_with() {
    let (mut load, _) = Load::begin("a/one.vert", "b/two.frag");
    for reply in [
        Reply::Text("v".to_string()),
        Reply::Text("f".to_string()),
        Reply::Handle(1),
        Reply::Status(1),
        Reply::Handle(2),
        Reply::Status(1),
        Reply::Handle(3),
        Reply::Status(1),
    ] {
        load.advance(reply);
    }
    let program = ShaderProgram::new(load).unwrap();
    assert!(should_reload(&program, "/x/one.vert"));
    assert!(should_reload(&program, "/x/two.frag"));
    assert!(!should_reload(&program, "/x/one.frag"));
    assert!(!should_reload(&program, "/x/two.vert"));
}

#[test]
fn every_qualifying_write_calls_for_a_reload_of_its_own() {
    let program = basic_program();
    let mut hotloader = Hotloader::watch("shaders");
    for _ in 0..3 {
        hotloader.deliver(WatchEvent {
            path: Some("/p/shaders/basic.frag".to_string()),
            op: Some(WRITE),
        });
    }
    let mut reloads = 0;
    for _ in 0..5 {
        if poll_reload(&mut hotloader, &program) {
            reloads += 1;
        }
    }
    assert_eq!(reloads, 3);
}

#[test]
fn poll_reload_takes_one_change_and_judges_it() {
    let program = basic_program();
    let mut hotloader = Hotloader::watch("shaders");
    assert!(!poll_reload(&mut hotloader, &program));
    hotloader.deliver(WatchEvent { path: Some("/p/shaders/basic.frag".to_string()), op: Some(0x02) });
    hotloader.deliver(WatchEvent { path: Some("/p/shaders/readme.txt".to_string()), op: Some(WRITE) });
    hotloader.deliver(WatchEvent { path: Some("/p/shaders/basic.vert".to_string()), op: Some(WRITE) });
    assert!(!poll_reload(&mut hotloader, &program));
    assert!(!poll_reload(&mut hotloader, &program));
    assert!(poll_reload(&mut hotloader, &program));
    assert!(!poll_reload(&mut hotloader, &program));
    assert_eq!(hotloader.has_event(), None);
}
