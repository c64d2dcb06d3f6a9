//! The engine: start-up arguments and configuration, the scene registry,
//! and the protocol by which one scene after the other is run.

use vstd::prelude::*;
use crate::text::str_eq;
use vstd::string::StringExecFns;

pub mod args;
pub mod mount;
pub mod scene;

pub use args::parse_arguments;
pub use scene::{IceBox, Preservable, Preserved, Scene, SceneExit};

verus! {

/// The error of an I/O operation of std, carried through as it came.
#[verifier::external_type_specification]
#[verifier::external_body]
pub struct ExIoError(std::io::Error);

/// Name of the configuration file that marks a project root.
pub const MOUNT_ROOT_CONFIG_FILE_NAME: &'static str = "raes.ron";

/// Everything that can stop the engine, by kind.
#[derive(Debug)]
pub enum EngineError {
    /// A start-up argument was not a flag the engine knows.
    IgniteBadArg(String),
    /// The arguments ended with a flag that still waited for its value.
    IgniteLeftOverArg,
    /// Reading the file system failed while the project root was looked for.
    MountSearchIO(std::io::Error),
    /// No project root was found.
    MountSearchRootNotFound,
    /// No project root was found within the distance that is searched.
    MountSearchRootNotFoundNearby,
    /// Several project roots were found where one was expected.
    MountAmbiguousRoots(Vec<String>),
    /// Reading a scene's persisted state failed.
    SceneLoadIO(std::io::Error),
    /// Writing a scene's persisted state failed.
    SceneWriteIO(std::io::Error),
    /// The scene has no persisted state yet.
    SceneNotFound,
    /// A scene's persisted state could not be parsed or produced.
    SceneParse(String),
    /// The engine's configuration could not be parsed.
    ParseConfig(String),
    /// The scene was never registered.
    SceneNotAdded(String),
    /// The scene's own run failed.
    SceneError(String),
}

/// Whether `e` says that a file does not exist: whether `io::Error::kind`
/// gives `NotFound` for it.
pub uninterp spec fn io_not_found(e: std::io::Error) -> bool;

/// `io::Error::kind`: whether the error says that a file does not exist.
#[verifier::external_body]
fn is_not_found(e: &std::io::Error) -> (r: bool)
    ensures
        r == io_not_found(*e),
{
    matches!(e.kind(), std::io::ErrorKind::NotFound)
}

/// What a failure to read a scene's persisted state means, once it is
/// known whether the file is missing: a missing file is a scene without
/// persisted state, anything else is an I/O error, carried as it came.
pub fn scene_load_error(missing: bool, e: std::io::Error) -> (r: EngineError)
    ensures
        r == if missing {
            EngineError::SceneNotFound
        } else {
            EngineError::SceneLoadIO(e)
        },
{
    if missing {
        EngineError::SceneNotFound
    } else {
        EngineError::SceneLoadIO(e)
    }
}

/// What a failure to read a scene's persisted state means: the error says
/// itself whether the file is missing. Only a missing file makes a scene
/// one without persisted state; every other error is handed on.
pub fn scene_load_failure(e: std::io::Error) -> (r: EngineError)
    ensures
        r == if io_not_found(e) {
            EngineError::SceneNotFound
        } else {
            EngineError::SceneLoadIO(e)
        },
{
    let missing = is_not_found(&e);
    scene_load_error(missing, e)
}

/// What the command line asked for.
#[derive(Debug)]
pub struct EngineArgs {
    pub mount_path: Option<String>,
    pub search_mount_name: Option<String>,
    pub scene: Option<String>,
}

/// What [`EngineArgs`] holds, as plain text.
pub struct EngineArgsView {
    pub mount_path: Option<Seq<char>>,
    pub search_mount_name: Option<Seq<char>>,
    pub scene: Option<Seq<char>>,
}

/// The text of an optional string.
pub open spec fn text_of(s: Option<String>) -> Option<Seq<char>> {
    match s {
        Some(s) => Some(s@),
        None => None,
    }
}

impl View for EngineArgs {
    type V = EngineArgsView;

    open spec fn view(&self) -> EngineArgsView {
        EngineArgsView {
            mount_path: text_of(self.mount_path),
            search_mount_name: text_of(self.search_mount_name),
            scene: text_of(self.scene),
        }
    }
}

impl Default for EngineArgs {
    fn default() -> (r: Self)
        ensures
            r@ == (EngineArgsView { mount_path: None, search_mount_name: None, scene: None }),
    {
        EngineArgs { mount_path: None, search_mount_name: None, scene: None }
    }
}

/// The engine's configuration, as the configuration file gives it.
#[derive(Debug)]
pub struct EngineConfig {
    /// The scene to start with when the command line names none.
    pub load_scene: String,
}

/// The scene registry and the name of the scene to start with.
///
/// `E` is what a registration is worth to whoever drives the engine: for
/// each name, the means to build the scene from its persisted text and to
/// persist a default one.
pub struct Engine<E> {
    config: EngineConfig,
    scenes: Vec<(String, E)>,
}

/// The registry after each of `names` was registered with `entry`: those
/// names now lead to `entry`, whatever they led to before, and every other
/// name leads where it did.
pub open spec fn registered<E>(registry: Map<Seq<char>, E>, names: Seq<Seq<char>>, entry: E) -> Map<
    Seq<char>,
    E,
> {
    Map::new(
        |name: Seq<char>| registry.contains_key(name) || names.contains(name),
        |name: Seq<char>|
            if names.contains(name) {
                entry
            } else {
                registry[name]
            },
    )
}

/// The last registration counts: a name that is registered again leads to
/// what it was registered with last, and a name that is not keeps what the
/// earlier registration gave it.
pub proof fn lemma_last_registration_wins<E>(
    registry: Map<Seq<char>, E>,
    first: Seq<Seq<char>>,
    earlier: E,
    second: Seq<Seq<char>>,
    later: E,
    name: Seq<char>,
)
    ensures
        second.contains(name) ==> registered(registered(registry, first, earlier), second, later)[name] == later,
        first.contains(name) && !second.contains(name) ==> registered(
            registered(registry, first, earlier),
            second,
            later,
        )[name] == earlier,
        registered(registered(registry, first, earlier), second, later).contains_key(name) <==> registry.contains_key(
            name,
        ) || first.contains(name) || second.contains(name),
{
}

/// The texts of a list of string slices.
pub open spec fn names_of(names: Seq<&str>) -> Seq<Seq<char>> {
    names.map_values(|s: &str| s@)
}

/// The scene to start with: the one the command line names, else the
/// configured one.
pub open spec fn first_scene_of(config: Seq<char>, args: EngineArgsView) -> Seq<char> {
    match args.scene {
        Some(scene) => scene,
        None => config,
    }
}

/// A scene that was found in the registry and whose persisted state is to
/// be read next.
pub struct SceneLoad<E> {
    /// What the scene was registered with.
    pub entry: E,
    /// The scene's name, which is also where its state is persisted.
    pub scene: String,
    /// The box the scene will be run with.
    pub icebox: IceBox,
}

/// How the scene object is to be made, once it is known whether the scene
/// has persisted state.
pub enum SceneBuild<E> {
    /// Parse the persisted text.
    Parse { entry: E, text: String, icebox: IceBox },
    /// Nothing is persisted yet: make a default scene and persist that.
    WriteDefault { entry: E, scene: String, icebox: IceBox },
}

/// What follows from the attempt to read a scene's persisted state: text is
/// parsed, a missing file is made good with a default, and any other
/// failure ends the run.
pub open spec fn after_load<E>(load: SceneLoad<E>, loaded: Result<String, EngineError>) -> Result<
    SceneBuild<E>,
    EngineError,
> {
    match loaded {
        Ok(text) => Ok(SceneBuild::Parse { entry: load.entry, text, icebox: load.icebox }),
        Err(EngineError::SceneNotFound) => Ok(
            SceneBuild::WriteDefault { entry: load.entry, scene: load.scene, icebox: load.icebox },
        ),
        Err(e) => Err(e),
    }
}

/// What a scene's exit means to the run loop: the successor and its box,
/// nothing when the sequence is over, or the scene's failure as an error
/// of its own kind.
pub open spec fn after_exit(exit: Result<SceneExit, String>) -> Result<Option<(String, IceBox)>, EngineError> {
    match exit {
        Ok(SceneExit::End) => Ok(None),
        Ok(SceneExit::Next(next, icebox)) => Ok(Some((next, icebox))),
        Err(message) => Err(EngineError::SceneError(message)),
    }
}

impl<E> SceneLoad<E> {
    /// Decides what to do once the scene's persisted state was read, or
    /// could not be.
    pub fn loaded(self, loaded: Result<String, EngineError>) -> (r: Result<SceneBuild<E>, EngineError>)
        ensures
            r == after_load(self, loaded),
    {
        match loaded {
            Ok(text) => Ok(SceneBuild::Parse { entry: self.entry, text, icebox: self.icebox }),
            Err(EngineError::SceneNotFound) => Ok(
                SceneBuild::WriteDefault { entry: self.entry, scene: self.scene, icebox: self.icebox },
            ),
            Err(e) => Err(e),
        }
    }
}

/// Maps the exit of a scene's run to what the run loop does next.
pub fn scene_exited(exit: Result<SceneExit, String>) -> (r: Result<Option<(String, IceBox)>, EngineError>)
    ensures
        r == after_exit(exit),
{
    match exit {
        Ok(SceneExit::End) => Ok(None),
        Ok(SceneExit::Next(next, icebox)) => Ok(Some((next, icebox))),
        Err(message) => Err(EngineError::SceneError(message)),
    }
}

impl<E> Engine<E> {
    #[verifier::type_invariant]
    spec fn one_per_name(&self) -> bool {
        forall|i: int, j: int|
            0 <= i < j < self.scenes@.len() ==> (#[trigger] self.scenes@[i]).0@ != (#[trigger] self.scenes@[j]).0@
    }

    /// Where `name` is registered.
    spec fn place(&self, name: Seq<char>) -> int {
        choose|i: int| 0 <= i < self.scenes@.len() && (#[trigger] self.scenes@[i]).0@ == name
    }

    /// The name of the scene to start with.
    pub closed spec fn first_scene(&self) -> Seq<char> {
        self.config.load_scene@
    }

    /// The registered scenes: what each name was last registered with.
    pub closed spec fn registry(&self) -> Map<Seq<char>, E> {
        Map::new(
            |name: Seq<char>| exists|i: int| 0 <= i < self.scenes@.len() && (#[trigger] self.scenes@[i]).0@ == name,
            |name: Seq<char>| self.scenes@[self.place(name)].1,
        )
    }

}

impl<E: Copy> Engine<E> {
    /// An engine with no scene registered. It starts with the scene that
    /// `args` names, or with the configured one when `args` names none.
    pub fn ignite(config: EngineConfig, args: EngineArgs) -> (r: Self)
        ensures
            r.first_scene() == first_scene_of(config.load_scene@, args@),
            r.registry() == Map::<Seq<char>, E>::empty(),
    {
        let mut config = config;
        if let Some(scene) = args.scene {
            config.load_scene = scene;
        }
        let r = Engine { config, scenes: Vec::new() };
        assert(r.registry() =~= Map::<Seq<char>, E>::empty());
        r
    }

    /// The place of `name` in the registry, if it is registered.
    fn find(&self, name: &str) -> (r: Option<usize>)
        ensures
            r is Some == self.registry().contains_key(name@),
            r is Some ==> r->0 < self.scenes@.len() && self.scenes@[r->0 as int].0@ == name@,
    {
        let mut i: usize = 0;
        while i < self.scenes.len()
            invariant
                i <= self.scenes@.len(),
                forall|j: int| 0 <= j < i ==> (#[trigger] self.scenes@[j]).0@ != name@,
            decreases self.scenes@.len() - i,
        {
            if str_eq(self.scenes[i].0.as_str(), name) {
                return Some(i);
            }
            i += 1;
        }
        None
    }

    /// Registers `name` with `entry`, in place of what it was registered
    /// with before.
    fn register(&mut self, name: &str, entry: E)
        ensures
            final(self).registry() == old(self).registry().insert(name@, entry),
            final(self).first_scene() == old(self).first_scene(),
    {
        proof {
            use_type_invariant(&*self);
        }
        let found = self.find(name);
        let ghost before = self.scenes@;
        let mut taken = Engine { config: EngineConfig { load_scene: String::new() }, scenes: Vec::new() };
        core::mem::swap(self, &mut taken);
        let Engine { config, scenes } = taken;
        let mut scenes = scenes;
        let ghost at: int;
        match found {
            Some(i) => {
                scenes.set(i, (String::from_str(name), entry));
                proof {
                    at = i as int;
                }
            },
            None => {
                scenes.push((String::from_str(name), entry));
                proof {
                    at = before.len() as int;
                }
            },
        }
        proof {
            let after = scenes@;
            assert(after[at].0@ == name@ && after[at].1 == entry);
            assert forall|j: int| 0 <= j < after.len() && j != at implies #[trigger] after[j] == before[j] && before[j].0@ != name@ by {}
            assert forall|i: int, j: int| 0 <= i < j < after.len() implies (#[trigger] after[i]).0@ != (#[trigger] after[j]).0@ by {}
        }
        *self = Engine { config, scenes };
        assert(final(self).registry() =~= old(self).registry().insert(name@, entry)) by {
            let after = final(self).scenes@;
            let new = final(self).registry();
            let want = old(self).registry().insert(name@, entry);
            assert forall|k: Seq<char>| #[trigger] new.contains_key(k) <==> want.contains_key(k) by {
                if old(self).registry().contains_key(k) && k != name@ {
                    let q = old(self).place(k);
                    assert(after[q].0@ == k);
                }
                if k == name@ {
                    assert(after[at].0@ == k);
                }
            }
            assert forall|k: Seq<char>| new.contains_key(k) implies #[trigger] new[k] == want[k] by {
                let p = final(self).place(k);
                if k == name@ {
                    if p != at {
                        assert(after[p].0@ == after[at].0@);
                    }
                } else {
                    let q = old(self).place(k);
                    assert(after[q].0@ == k);
                    if p != q {
                        assert(after[p].0@ == after[q].0@);
                    }
                }
            }
        }
    }

    /// Registers each of `scene_names` with `entry`. A name that was
    /// registered before is registered anew: the last registration counts.
    pub fn add_scene(&mut self, scene_names: &[&str], entry: E) -> (r: &mut Self)
        ensures
            r.registry() == registered(old(self).registry(), names_of(scene_names@), entry),
            r.first_scene() == old(self).first_scene(),
            *final(self) == *final(r),
    {
        let ghost names = names_of(scene_names@);
        let mut i: usize = 0;
        while i < scene_names.len()
            invariant
                i <= scene_names@.len(),
                names == names_of(scene_names@),
                self.registry() == registered(old(self).registry(), names.take(i as int), entry),
                self.first_scene() == old(self).first_scene(),
            decreases scene_names@.len() - i,
        {
            let ghost so_far = self.registry();
            self.register(scene_names[i], entry);
            proof {
                let name = names[i as int];
                assert(name == scene_names@[i as int]@);
                let shorter = names.take(i as int);
                let longer = names.take(i + 1);
                assert(longer =~= shorter.push(name));
                assert forall|k: Seq<char>| longer.contains(k) <==> (shorter.contains(k) || k == name) by {
                    if shorter.contains(k) {
                        let w = choose|w: int| 0 <= w < shorter.len() && shorter[w] == k;
                        assert(longer[w] == k);
                    }
                    if k == name {
                        assert(longer[i as int] == k);
                    }
                }
                assert(self.registry() =~= registered(old(self).registry(), longer, entry));
            }
            i += 1;
        }
        proof {
            assert(names.take(i as int) =~= names);
        }
        self
    }

    /// The name of the scene to start with.
    pub fn get_first_scene(&self) -> (r: String)
        ensures
            r@ == self.first_scene(),
    {
        self.config.load_scene.clone()
    }

    /// Begins the run of `scene` with `icebox`: finds what the scene was
    /// registered with, so that its persisted state can be read next. A
    /// name that was never registered is an error, and nothing is read.
    pub fn run_scene(&self, scene: &str, icebox: IceBox) -> (r: Result<SceneLoad<E>, EngineError>)
        ensures
            match r {
                Ok(load) => self.registry().contains_key(scene@) && load.entry == self.registry()[scene@]
                    && load.scene@ == scene@ && load.icebox == icebox,
                Err(EngineError::SceneNotAdded(name)) => !self.registry().contains_key(scene@) && name@ == scene@,
                Err(_) => false,
            },
    {
        proof {
            use_type_invariant(self);
        }
        match self.find(scene) {
            None => Err(EngineError::SceneNotAdded(String::from_str(scene))),
            Some(i) => {
                assert(self.place(scene@) == i) by {
                    let p = self.place(scene@);
                    if p != i {
                        assert(self.scenes@[p].0@ == self.scenes@[i as int].0@);
                    }
                }
                Ok(SceneLoad { entry: self.scenes[i].1, scene: String::from_str(scene), icebox })
            },
        }
    }
}

} // verus!
