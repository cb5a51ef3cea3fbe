//! The game engines whose glue code a build can carry.
use vstd::prelude::*;

verus! {

/// The engine that the packaged program is written for. It decides which
/// glue code is injected into the generated source and which executor takes
/// the compiler invocations.
#[derive(Debug, Clone, Copy, PartialEq, Eq, Structural)]
pub enum GameEngine {
    Bevy,
    Macroquad,
}

impl Default for GameEngine {
    fn default() -> (engine: Self)
        ensures
            engine == GameEngine::Macroquad,
    {
        GameEngine::Macroquad
    }
}

} // verus!
