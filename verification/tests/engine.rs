use std::collections::HashMap;

use raes::engine::args::{read_flag, EngineFlag};
use raes::engine::mount::{classify_entry, judge_report, EntryAction, EntryKind, SearchStep, MAX_DISTANCE};
use raes::engine::{parse_arguments, scene_exited, scene_load_error, scene_load_failure, SceneBuild};
use raes::{Engine, EngineArgs, EngineConfig, EngineError, IceBox, Preservable, Scene, SceneExit};

fn strings(args: &[&str]) -> Vec<String> {
    args.iter().map(|s| s.to_string()).collect()
}

#[test]
fn no_arguments_ask_for_nothing() {
    let args = parse_arguments(&[]).unwrap();
    assert_eq!(args.scene, None);
    assert_eq!(args.mount_path, None);
    assert_eq!(args.search_mount_name, None);
}

#[test]
fn each_flag_sets_its_field() {
    let args = parse_arguments(&strings(&["--scene", "a.ron", "--mount", "proj", "--mount-path", "/tmp/p"])).unwrap();
    assert_eq!(args.scene.as_deref(), Some("a.ron"));
    assert_eq!(args.search_mount_name.as_deref(), Some("proj"));
    assert_eq!(args.mount_path.as_deref(), Some("/tmp/p"));
    let args = parse_arguments(&strings(&["-m", "/q", "-s", "b.ron", "-n", "other"])).unwrap();
    assert_eq!(args.scene.as_deref(), Some("b.ron"));
    assert_eq!(args.search_mount_name.as_deref(), Some("other"));
    assert_eq!(args.mount_path.as_deref(), Some("/q"));
}

#[test]
fn a_flag_given_twice_counts_the_last_time() {
    let args = parse_arguments(&strings(&["-s", "one", "--scene", "two"])).unwrap();
    assert_eq!(args.scene.as_deref(), Some("two"));
    assert_eq!(args.mount_path, None);
}

#[test]
fn a_value_may_look_like_a_flag() {
    let args = parse_arguments(&strings(&["--scene", "--mount"])).unwrap();
    assert_eq!(args.scene.as_deref(), Some("--mount"));
    assert_eq!(args.search_mount_name, None);
}

#[test]
fn unrecognized_flag_is_reported_with_its_text() {
    match parse_arguments(&strings(&["--scene", "a", "--bogus", "x"])) {
        Err(EngineError::IgniteBadArg(message)) => assert_eq!(message, "Unrecognized flag: `--bogus`."),
        other => panic!("expected a bad argument, got {:?}", other),
    }
    match parse_arguments(&strings(&["scene"])) {
        Err(EngineError::IgniteBadArg(message)) => assert_eq!(message, "Unrecognized flag: `scene`."),
        other => panic!("expected a bad argument, got {:?}", other),
    }
}

#[test]
fn trailing_flag_without_value_is_left_over() {
    assert!(matches!(parse_arguments(&strings(&["--scene"])), Err(EngineError::IgniteLeftOverArg)));
    assert!(matches!(parse_arguments(&strings(&["-s", "a", "-m"])), Err(EngineError::IgniteLeftOverArg)));
}

#[test]
fn first_unrecognized_flag_wins_over_left_over() {
    match parse_arguments(&strings(&["what", "x", "--scene"])) {
        Err(EngineError::IgniteBadArg(message)) => assert_eq!(message, "Unrecognized flag: `what`."),
        other => panic!("expected a bad argument, got {:?}", other),
    }
}

#[test]
fn read_flag_knows_long_and_short_forms() {
    assert_eq!(read_flag("--scene"), Some(EngineFlag::Scene));
    assert_eq!(read_flag("-s"), Some(EngineFlag::Scene));
    assert_eq!(read_flag("--mount"), Some(EngineFlag::SearchMountName));
    assert_eq!(read_flag("-n"), Some(EngineFlag::SearchMountName));
    assert_eq!(read_flag("--mount-path"), Some(EngineFlag::MountPath));
    assert_eq!(read_flag("-m"), Some(EngineFlag::MountPath));
    assert_eq!(read_flag("--Scene"), None);
    assert_eq!(read_flag(""), None);
}

#[derive(Debug, PartialEq)]
struct Answer(i32);

impl Preservable for Answer {}

#[derive(Debug, PartialEq)]
struct Label(String);

impl Preservable for Label {}

#[test]
fn icebox_gives_back_what_was_put_once() {
    let mut icebox = IceBox::new();
    assert!(icebox.take::<Answer>().is_none());
    assert!(icebox.put(Box::new(Answer(42))).is_ok());
    assert_eq!(icebox.take::<Answer>(), Some(Box::new(Answer(42))));
    assert_eq!(icebox.take::<Answer>(), None);
    assert!(icebox.put(Box::new(Answer(43))).is_ok());
    assert_eq!(icebox.take::<Answer>(), Some(Box::new(Answer(43))));
}

#[test]
fn icebox_refuses_a_second_value_of_a_type() {
    let mut icebox = IceBox::default();
    assert!(icebox.put(Box::new(Answer(1))).is_ok());
    assert_eq!(icebox.put(Box::new(Answer(2))), Err(Box::new(Answer(2))));
    assert_eq!(icebox.take::<Answer>(), Some(Box::new(Answer(1))));
}

#[test]
fn icebox_keeps_types_apart() {
    let mut icebox = IceBox::new();
    assert!(icebox.put(Box::new(Answer(7))).is_ok());
    assert!(icebox.put(Box::new(Label(String::from("seven")))).is_ok());
    assert!(icebox.holds(std::any::TypeId::of::<Answer>()));
    assert!(icebox.holds(std::any::TypeId::of::<Label>()));
    assert!(!icebox.holds(std::any::TypeId::of::<i32>()));
    assert_eq!(icebox.take::<Label>(), Some(Box::new(Label(String::from("seven")))));
    assert!(!icebox.holds(std::any::TypeId::of::<Label>()));
    assert_eq!(icebox.take::<Answer>(), Some(Box::new(Answer(7))));
    assert_eq!(icebox.take::<Label>(), None);
}

#[test]
fn icebox_moves_values_by_key() {
    let mut from = IceBox::new();
    let mut to = IceBox::new();
    assert!(from.put(Box::new(Answer(5))).is_ok());
    let key = std::any::TypeId::of::<Answer>();
    let value = from.take_at(key).unwrap();
    assert!(from.take_at(key).is_none());
    to.put_at(key, value);
    assert_eq!(to.take::<Answer>(), Some(Box::new(Answer(5))));
}

#[test]
fn icebox_puts_back_what_is_not_of_the_type_asked_for() {
    let mut icebox = IceBox::new();
    assert!(icebox.put(Box::new(Answer(5))).is_ok());
    let key = std::any::TypeId::of::<Answer>();
    let value = icebox.take_at(key).unwrap();
    assert_eq!(icebox.finish_take::<Label>(key, Err(value)), None);
    assert!(icebox.holds(key));
    assert_eq!(icebox.take::<Answer>(), Some(Box::new(Answer(5))));
    assert_eq!(icebox.finish_take(key, Ok(Box::new(Answer(6)))), Some(Box::new(Answer(6))));
    assert!(!icebox.holds(key));
}

#[test]
fn first_scene_is_the_configured_one_unless_overridden() {
    let config = EngineConfig { load_scene: String::from("menu.ron") };
    let engine: Engine<u8> = Engine::ignite(config, EngineArgs::default());
    assert_eq!(engine.get_first_scene(), "menu.ron");

    let config = EngineConfig { load_scene: String::from("menu.ron") };
    let args = parse_arguments(&strings(&["--scene", "level.ron"])).unwrap();
    let engine: Engine<u8> = Engine::ignite(config, args);
    assert_eq!(engine.get_first_scene(), "level.ron");
}

#[test]
fn unregistered_scene_is_not_added() {
    let config = EngineConfig { load_scene: String::from("a") };
    let mut engine: Engine<u8> = Engine::ignite(config, EngineArgs::default());
    engine.add_scene(&["a"], 1);
    match engine.run_scene("b", IceBox::new()) {
        Err(EngineError::SceneNotAdded(name)) => assert_eq!(name, "b"),
        _ => panic!("expected the scene to be unknown"),
    }
}

#[test]
fn last_registration_of_a_name_wins() {
    let config = EngineConfig { load_scene: String::from("a") };
    let mut engine: Engine<u8> = Engine::ignite(config, EngineArgs::default());
    engine.add_scene(&["a", "b"], 1).add_scene(&["b", "c"], 2);
    assert_eq!(engine.run_scene("a", IceBox::new()).ok().unwrap().entry, 1);
    assert_eq!(engine.run_scene("b", IceBox::new()).ok().unwrap().entry, 2);
    assert_eq!(engine.run_scene("c", IceBox::new()).ok().unwrap().entry, 2);
    assert_eq!(engine.get_first_scene(), "a");
    let load = engine.run_scene("c", IceBox::new()).ok().unwrap();
    assert_eq!(load.scene, "c");
}

#[test]
fn loaded_text_is_parsed_and_missing_file_is_made_good() {
    let config = EngineConfig { load_scene: String::from("a") };
    let mut engine: Engine<u8> = Engine::ignite(config, EngineArgs::default());
    engine.add_scene(&["a"], 9);

    let load = engine.run_scene("a", IceBox::new()).ok().unwrap();
    match load.loaded(Ok(String::from("(x: 1)"))) {
        Ok(SceneBuild::Parse { entry, text, .. }) => {
            assert_eq!(entry, 9);
            assert_eq!(text, "(x: 1)");
        }
        _ => panic!("expected the text to be parsed"),
    }

    let load = engine.run_scene("a", IceBox::new()).ok().unwrap();
    match load.loaded(Err(EngineError::SceneNotFound)) {
        Ok(SceneBuild::WriteDefault { entry, scene, .. }) => {
            assert_eq!(entry, 9);
            assert_eq!(scene, "a");
        }
        _ => panic!("expected a default to be written"),
    }

    let load = engine.run_scene("a", IceBox::new()).ok().unwrap();
    let denied = std::io::Error::new(std::io::ErrorKind::PermissionDenied, "no");
    match load.loaded(Err(EngineError::SceneLoadIO(denied))) {
        Err(EngineError::SceneLoadIO(e)) => assert_eq!(e.kind(), std::io::ErrorKind::PermissionDenied),
        _ => panic!("expected the I/O error to come through"),
    }
}

#[test]
fn load_failure_tells_a_missing_file_from_other_errors() {
    let missing = std::io::Error::new(std::io::ErrorKind::NotFound, "gone");
    assert!(matches!(scene_load_failure(missing), EngineError::SceneNotFound));
    let denied = std::io::Error::new(std::io::ErrorKind::PermissionDenied, "no");
    match scene_load_failure(denied) {
        EngineError::SceneLoadIO(e) => assert_eq!(e.kind(), std::io::ErrorKind::PermissionDenied),
        other => panic!("expected an I/O error, got {:?}", other),
    }
}

#[test]
fn load_error_goes_by_whether_the_file_is_missing() {
    let e = std::io::Error::new(std::io::ErrorKind::Other, "x");
    assert!(matches!(scene_load_error(true, e), EngineError::SceneNotFound));
    let e = std::io::Error::new(std::io::ErrorKind::NotFound, "x");
    match scene_load_error(false, e) {
        EngineError::SceneLoadIO(e) => assert_eq!(e.kind(), std::io::ErrorKind::NotFound),
        other => panic!("expected an I/O error, got {:?}", other),
    }
}

#[test]
fn scene_exit_maps_to_the_run_loop() {
    assert!(matches!(scene_exited(Ok(SceneExit::End)), Ok(None)));
    let mut icebox = IceBox::new();
    assert!(icebox.put(Box::new(Answer(3))).is_ok());
    match scene_exited(Ok(SceneExit::Next(String::from("b"), icebox))) {
        Ok(Some((next, mut icebox))) => {
            assert_eq!(next, "b");
            assert_eq!(icebox.take::<Answer>(), Some(Box::new(Answer(3))));
        }
        _ => panic!("expected a successor"),
    }
    match scene_exited(Err(String::from("boom"))) {
        Err(EngineError::SceneError(message)) => assert_eq!(message, "boom"),
        _ => panic!("expected the scene's failure"),
    }
}

struct Ends;

impl Scene for Ends {
    fn run(&mut self, _: IceBox) -> Result<SceneExit, String> {
        Ok(SceneExit::End)
    }
}

struct HandsOn;

impl Scene for HandsOn {
    fn run(&mut self, mut icebox: IceBox) -> Result<SceneExit, String> {
        icebox.put(Box::new(Answer(42))).map_err(|_| String::from("put twice"))?;
        Ok(SceneExit::Next(String::from("b"), icebox))
    }
}

struct Receives {
    got: std::rc::Rc<std::cell::Cell<i32>>,
}

impl Scene for Receives {
    fn run(&mut self, mut icebox: IceBox) -> Result<SceneExit, String> {
        let answer = icebox.take::<Answer>().ok_or(String::from("nothing handed on"))?;
        self.got.set(answer.0);
        Ok(SceneExit::End)
    }
}

struct Fails;

impl Scene for Fails {
    fn run(&mut self, _: IceBox) -> Result<SceneExit, String> {
        Err(String::from("scene broke"))
    }
}

#[derive(Clone, Copy)]
enum Kind {
    Ends,
    HandsOn,
    Receives,
    Fails,
}

struct World {
    files: HashMap<String, String>,
    log: Vec<String>,
    got: std::rc::Rc<std::cell::Cell<i32>>,
}

impl World {
    fn new() -> Self {
        World { files: HashMap::new(), log: Vec::new(), got: std::rc::Rc::new(std::cell::Cell::new(0)) }
    }

    fn make(&self, kind: Kind) -> Box<dyn Scene> {
        match kind {
            Kind::Ends => Box::new(Ends),
            Kind::HandsOn => Box::new(HandsOn),
            Kind::Receives => Box::new(Receives { got: self.got.clone() }),
            Kind::Fails => Box::new(Fails),
        }
    }

    fn run_scene(
        &mut self,
        engine: &Engine<Kind>,
        name: &str,
        icebox: IceBox,
    ) -> Result<Option<(String, IceBox)>, EngineError> {
        let load = engine.run_scene(name, icebox)?;
        let loaded = match self.files.get(name) {
            Some(text) => {
                self.log.push(format!("load {}", name));
                Ok(text.clone())
            }
            None => Err(EngineError::SceneNotFound),
        };
        let (mut scene, icebox) = match load.loaded(loaded)? {
            SceneBuild::Parse { entry, text, icebox } => {
                if text == "garbage" {
                    return Err(EngineError::SceneParse(String::from("garbage")));
                }
                self.log.push(format!("parse {}", text));
                (self.make(entry), icebox)
            }
            SceneBuild::WriteDefault { entry, scene, icebox } => {
                self.log.push(format!("write {}", scene));
                self.files.insert(scene, String::from("default"));
                (self.make(entry), icebox)
            }
        };
        self.log.push(format!("run {}", name));
        scene_exited(scene.run(icebox))
    }
}

fn engine() -> Engine<Kind> {
    let config = EngineConfig { load_scene: String::from("a") };
    Engine::ignite(config, EngineArgs::default())
}

#[test]
fn scene_that_ends_terminates_the_run() {
    let mut engine = engine();
    engine.add_scene(&["a"], Kind::Ends);
    let mut world = World::new();
    world.files.insert(String::from("a"), String::from("stored"));
    let result = world.run_scene(&engine, "a", IceBox::new());
    assert!(matches!(result, Ok(None)));
    assert_eq!(world.log, ["load a", "parse stored", "run a"]);
}

#[test]
fn successor_receives_the_box() {
    let mut engine = engine();
    engine.add_scene(&["a"], Kind::HandsOn).add_scene(&["b"], Kind::Receives);
    let mut world = World::new();
    world.files.insert(String::from("a"), String::from("A"));
    world.files.insert(String::from("b"), String::from("B"));
    let (next, icebox) = world.run_scene(&engine, "a", IceBox::new()).ok().unwrap().unwrap();
    assert_eq!(next, "b");
    let result = world.run_scene(&engine, &next, icebox);
    assert!(matches!(result, Ok(None)));
    assert_eq!(world.got.get(), 42);
}

#[test]
fn run_loop_follows_successors_until_the_end() {
    let mut engine = engine();
    engine.add_scene(&["a"], Kind::HandsOn).add_scene(&["b"], Kind::Receives);
    let mut world = World::new();
    let mut current = engine.get_first_scene();
    let mut icebox = IceBox::new();
    let mut runs = 0;
    while let Some((next, next_icebox)) = world.run_scene(&engine, &current, icebox).ok().unwrap() {
        current = next;
        icebox = next_icebox;
        runs += 1;
    }
    assert_eq!(runs, 1);
    assert_eq!(current, "b");
    assert_eq!(world.got.get(), 42);
}

#[test]
fn missing_file_is_written_before_the_scene_runs() {
    let mut engine = engine();
    engine.add_scene(&["a"], Kind::Ends);
    let mut world = World::new();
    let result = world.run_scene(&engine, "a", IceBox::new());
    assert!(matches!(result, Ok(None)));
    assert_eq!(world.log, ["write a", "run a"]);
    assert_eq!(world.files.get("a").map(String::as_str), Some("default"));
    let result = world.run_scene(&engine, "a", IceBox::new());
    assert!(matches!(result, Ok(None)));
    assert_eq!(world.log, ["write a", "run a", "load a", "parse default", "run a"]);
}

#[test]
fn unregistered_scene_touches_nothing() {
    let engine = engine();
    let mut world = World::new();
    match world.run_scene(&engine, "a", IceBox::new()) {
        Err(EngineError::SceneNotAdded(name)) => assert_eq!(name, "a"),
        _ => panic!("expected the scene to be unknown"),
    }
    assert!(world.log.is_empty());
    assert!(world.files.is_empty());
}

#[test]
fn parse_failure_and_scene_failure_end_the_run() {
    let mut engine = engine();
    engine.add_scene(&["a"], Kind::Ends).add_scene(&["f"], Kind::Fails);
    let mut world = World::new();
    world.files.insert(String::from("a"), String::from("garbage"));
    assert!(matches!(world.run_scene(&engine, "a", IceBox::new()), Err(EngineError::SceneParse(_))));
    match world.run_scene(&engine, "f", IceBox::new()) {
        Err(EngineError::SceneError(message)) => assert_eq!(message, "scene broke"),
        _ => panic!("expected the scene's failure"),
    }
}

#[test]
fn entries_are_classified() {
    let none = None;
    let named = Some(String::from("proj"));
    assert_eq!(classify_entry(EntryKind::Dir, false, "sub", "proj", &none), EntryAction::Descend);
    assert_eq!(classify_entry(EntryKind::Dir, true, "proj", "proj", &none), EntryAction::Skip);
    assert_eq!(classify_entry(EntryKind::File, false, "raes.ron", "proj", &none), EntryAction::Record);
    assert_eq!(classify_entry(EntryKind::File, false, "raes.ron", "proj", &named), EntryAction::Found);
    assert_eq!(classify_entry(EntryKind::File, false, "raes.ron", "other", &named), EntryAction::Skip);
    assert_eq!(classify_entry(EntryKind::File, false, "main.rs", "proj", &none), EntryAction::Skip);
    assert_eq!(classify_entry(EntryKind::Other, false, "raes.ron", "proj", &none), EntryAction::Skip);
    assert_eq!(classify_entry(EntryKind::Dir, false, "raes.ron", "proj", &named), EntryAction::Descend);
}

#[test]
fn reports_are_judged() {
    assert_eq!(MAX_DISTANCE, 4);
    match judge_report(&vec![(String::from("/p"), 1)], 1) {
        SearchStep::Found(path) => assert_eq!(path, "/p"),
        other => panic!("expected the root, got {:?}", other),
    }
    match judge_report(&vec![(String::from("/p"), 1), (String::from("/q"), 2)], 1) {
        SearchStep::Failed(EngineError::MountAmbiguousRoots(paths)) => assert_eq!(paths, ["/p", "/q"]),
        other => panic!("expected several roots, got {:?}", other),
    }
    assert!(matches!(judge_report(&vec![], 1), SearchStep::Widen(2)));
    assert!(matches!(judge_report(&vec![], 3), SearchStep::Widen(4)));
    assert!(matches!(
        judge_report(&vec![], 4),
        SearchStep::Failed(EngineError::MountSearchRootNotFoundNearby)
    ));
    assert!(matches!(
        judge_report(&vec![], usize::MAX),
        SearchStep::Failed(EngineError::MountSearchRootNotFoundNearby)
    ));
}
