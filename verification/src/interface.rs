//! The scenes of the page, and the names that players are given.

use crate::db::pick;
use crate::glue::{
    give, no_commands, Button, ChatNote, ChatNoteView, Command, CommandView, Event, EventView, Fault,
    JoinOutcome,
};
use crate::utils::Gamemode;
use rand::rngs::SmallRng;
use vstd::prelude::*;
use vstd::string::*;

verus! {

/// What the page shows.
#[derive(Debug, PartialEq, Eq, Clone, Copy, Structural)]
pub enum Scene {
    Loading,
    Canvas,
    Gamemode,
    Register,
    Online,
    Settings,
}

impl Scene {
    /// The scene that a number stands for, if it stands for one.
    pub open spec fn spec_from_i8(value: i8) -> Option<Scene> {
        if value == -2 {
            Some(Scene::Loading)
        } else if value == -1 {
            Some(Scene::Canvas)
        } else if value == 0 {
            Some(Scene::Gamemode)
        } else if value == 1 {
            Some(Scene::Register)
        } else if value == 2 {
            Some(Scene::Online)
        } else if value == 3 {
            Some(Scene::Settings)
        } else {
            None
        }
    }

    /// The scene that a number stands for, if it stands for one.
    #[verifier::when_used_as_spec(spec_from_i8)]
    pub fn from_i8(value: i8) -> (scene: Option<Scene>)
        ensures
            scene == Scene::spec_from_i8(value),
    {
        if value == -2 {
            Some(Scene::Loading)
        } else if value == -1 {
            Some(Scene::Canvas)
        } else if value == 0 {
            Some(Scene::Gamemode)
        } else if value == 1 {
            Some(Scene::Register)
        } else if value == 2 {
            Some(Scene::Online)
        } else if value == 3 {
            Some(Scene::Settings)
        } else {
            None
        }
    }

    /// The number that stands for the scene.
    pub open spec fn spec_to_i8(self) -> i8 {
        match self {
            Scene::Loading => -2i8,
            Scene::Canvas => -1i8,
            Scene::Gamemode => 0,
            Scene::Register => 1,
            Scene::Online => 2,
            Scene::Settings => 3,
        }
    }

    /// The number that stands for the scene.
    #[verifier::when_used_as_spec(spec_to_i8)]
    pub fn to_i8(self) -> (value: i8)
        ensures
            value == self.spec_to_i8(),
            Scene::spec_from_i8(value) == Some(self),
    {
        match self {
            Scene::Loading => -2,
            Scene::Canvas => -1,
            Scene::Gamemode => 0,
            Scene::Register => 1,
            Scene::Online => 2,
            Scene::Settings => 3,
        }
    }
}

/// A name for a player: a word of each list, with a hyphen between them.
/// `None` where a list is empty.
pub fn new_name(rng: &mut SmallRng, left: &[&str], right: &[&str]) -> (name: Option<String>)
    ensures
        left@.len() == 0 || right@.len() == 0 ==> name is None,
        left@.len() > 0 && right@.len() > 0 ==> name is Some && exists|i: int, j: int|
            0 <= i < left@.len() && 0 <= j < right@.len() && name->0@ == #[trigger] left@[i]@ + "-"@
                + #[trigger] right@[j]@,
{
    if left.len() == 0 || right.len() == 0 {
        return None;
    }
    let first = pick(rng, left).unwrap();
    let second = pick(rng, right).unwrap();
    let mut name = String::from_str(first);
    name.append("-");
    name.append(second);
    proof {
        let i = choose|i: int| 0 <= i < left@.len() && left@[i] == first;
        let j = choose|j: int| 0 <= j < right@.len() && right@[j] == second;
        assert(name@ == left@[i]@ + "-"@ + right@[j]@);
    }
    Some(name)
}

/// Decides which scene the page shows.
pub struct InterfacesManager {
    pub gamemode: Gamemode,
    pub scene: Scene,
    pub name: String,
}

impl InterfacesManager {
    /// The scene to which the page goes back when the menu that it shows is
    /// closed; `None` where it shows no menu that can be closed.
    pub open spec fn scene_behind(&self) -> Option<Scene> {
        match self.scene {
            Scene::Register => Some(Scene::Gamemode),
            Scene::Online => Some(Scene::Register),
            Scene::Settings => Some(
                if self.gamemode == Gamemode::Solo {
                    Scene::Gamemode
                } else {
                    Scene::Online
                },
            ),
            _ => None,
        }
    }

    /// What taking an event comes to: the name, the mode and the scene
    /// afterwards, and the commands given.
    pub open spec fn reaction(&self, event: EventView) -> Result<
        (Seq<char>, Gamemode, Scene, Seq<CommandView>),
        Fault,
    > {
        match event {
            EventView::Start => Ok(
                (
                    self.name@,
                    self.gamemode,
                    self.scene,
                    seq![
                        CommandView::SetPlayerName { is_self: true, name: self.name@ },
                        CommandView::SetScene(self.scene.spec_to_i8()),
                    ],
                ),
            ),
            EventView::SetGamemode(mode) => match Gamemode::spec_from_u8(mode) {
                None => Err(Fault::InvalidGamemode),
                Some(mode) => {
                    let scene = if mode == Gamemode::Solo {
                        Scene::Settings
                    } else {
                        Scene::Register
                    };
                    Ok((self.name@, mode, scene, seq![CommandView::SetScene(scene.spec_to_i8())]))
                },
            },
            EventView::MenuHidden(_) => match self.scene_behind() {
                None => Err(Fault::CannotCloseMenu),
                Some(scene) => Ok(
                    (
                        self.name@,
                        self.gamemode,
                        scene,
                        if self.scene == Scene::Register {
                            seq![
                                CommandView::Emit(EventView::Disconnected),
                                CommandView::SetScene(scene.spec_to_i8()),
                            ]
                        } else {
                            seq![CommandView::SetScene(scene.spec_to_i8())]
                        },
                    ),
                ),
            },
            EventView::Register(name) => Ok(
                (
                    name,
                    self.gamemode,
                    Scene::Online,
                    seq![
                        CommandView::SetPlayerName { is_self: true, name },
                        CommandView::SetScene(Scene::Online.spec_to_i8()),
                    ],
                ),
            ),
            EventView::SetSettings { .. } => Ok(
                (
                    self.name@,
                    self.gamemode,
                    Scene::Canvas,
                    seq![CommandView::SetScene(Scene::Canvas.spec_to_i8())],
                ),
            ),
            EventView::GameButtonClick(Button::PlayAgain) => Ok(
                (
                    self.name@,
                    self.gamemode,
                    Scene::Settings,
                    seq![CommandView::SetScene(Scene::Settings.spec_to_i8())],
                ),
            ),
            EventView::JoinedRoom { code, is_host } => if is_host {
                Ok(
                    (
                        self.name@,
                        self.gamemode,
                        Scene::Settings,
                        seq![
                            CommandView::AddChatMessage(ChatNoteView::JoinRoom(code)),
                            CommandView::SetScene(Scene::Settings.spec_to_i8()),
                        ],
                    ),
                )
            } else {
                Ok(
                    (
                        self.name@,
                        self.gamemode,
                        Scene::Canvas,
                        seq![
                            CommandView::AddChatMessage(ChatNoteView::JoinRoom(code)),
                            CommandView::JoinResponse(JoinOutcome::Success),
                            CommandView::SetScene(Scene::Canvas.spec_to_i8()),
                        ],
                    ),
                )
            },
            EventView::NetError => Ok(
                (
                    self.name@,
                    self.gamemode,
                    self.scene,
                    seq![CommandView::JoinResponse(JoinOutcome::NotFound)],
                ),
            ),
            _ => Ok((self.name@, self.gamemode, self.scene, Seq::empty())),
        }
    }

    /// The page at its beginning: it asks for the mode of the game, and the
    /// player has the name given.
    pub fn new(name: String) -> (manager: Self)
        ensures
            manager.gamemode == Gamemode::Solo,
            manager.scene == Scene::Gamemode,
            manager.name == name,
    {
        InterfacesManager { gamemode: Gamemode::Solo, scene: Scene::Gamemode, name }
    }

    fn set_scene(&mut self, scene: Scene, commands: &mut Vec<Command>)
        ensures
            final(self).scene == scene,
            final(self).name == old(self).name,
            final(self).gamemode == old(self).gamemode,
            final(commands).deep_view() == old(commands).deep_view().push(
                CommandView::SetScene(scene.spec_to_i8()),
            ),
    {
        self.scene = scene;
        give(commands, Command::SetScene(scene.to_i8()));
    }

    /// Takes an event: goes to the scene that follows from it, and gives
    /// the commands to show it. Fails, with nothing said of the state, where
    /// the event does not fit.
    pub fn on_event(&mut self, event: &Event) -> (res: Result<Vec<Command>, Fault>)
        ensures
            match old(self).reaction(event@) {
                Ok((name, gamemode, scene, commands)) => {
                    &&& res matches Ok(given)
                    &&& given.deep_view() == commands
                    &&& final(self).name@ == name
                    &&& final(self).gamemode == gamemode
                    &&& final(self).scene == scene
                },
                Err(fault) => res == Err::<Vec<Command>, Fault>(fault),
            },
    {
        let mut commands = no_commands();
        match event {
            Event::Start => {
                give(&mut commands, Command::SetPlayerName { is_self: true, name: self.name.clone() });
                let scene = self.scene;
                self.set_scene(scene, &mut commands);
            },
            Event::SetGamemode(mode) => {
                let mode = match Gamemode::from_u8(*mode) {
                    Some(mode) => mode,
                    None => {
                        return Err(Fault::InvalidGamemode);
                    },
                };
                self.gamemode = mode;
                if mode == Gamemode::Solo {
                    self.set_scene(Scene::Settings, &mut commands);
                } else {
                    self.set_scene(Scene::Register, &mut commands);
                }
            },
            Event::MenuHidden(_) => {
                let scene = match self.scene {
                    Scene::Register => {
                        give(&mut commands, Command::Emit(Event::Disconnected));
                        Scene::Gamemode
                    },
                    Scene::Online => Scene::Register,
                    Scene::Settings => {
                        if self.gamemode == Gamemode::Solo {
                            Scene::Gamemode
                        } else {
                            Scene::Online
                        }
                    },
                    _ => {
                        return Err(Fault::CannotCloseMenu);
                    },
                };
                self.set_scene(scene, &mut commands);
            },
            Event::Register(name) => {
                self.name = name.clone();
                give(&mut commands, Command::SetPlayerName { is_self: true, name: name.clone() });
                self.set_scene(Scene::Online, &mut commands);
            },
            Event::SetSettings { .. } => {
                self.set_scene(Scene::Canvas, &mut commands);
            },
            Event::GameButtonClick(button) => {
                if *button == Button::PlayAgain {
                    self.set_scene(Scene::Settings, &mut commands);
                }
            },
            Event::JoinedRoom { code, is_host } => {
                give(&mut commands, Command::AddChatMessage(ChatNote::JoinRoom(code.clone())));
                if !*is_host {
                    give(&mut commands, Command::JoinResponse(JoinOutcome::Success));
                    self.set_scene(Scene::Canvas, &mut commands);
                } else {
                    self.set_scene(Scene::Settings, &mut commands);
                }
            },
            Event::NetError => {
                give(&mut commands, Command::JoinResponse(JoinOutcome::NotFound));
            },
            _ => {},
        }
        Ok(commands)
    }
}

} // verus!
