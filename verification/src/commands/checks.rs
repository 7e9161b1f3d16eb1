//! Checks that several commands share.
use vstd::prelude::*;
use crate::commands::command::{CommandError, CommandErrorView};
use crate::game_state::{GameState, GameStateView};
use crate::utils::{name_id, name_to_id};

verus! {

/// The view of what a check answered.
pub open spec fn checked_view<T: DeepView>(r: Result<T, CommandError>) -> Result<
    T::V,
    CommandErrorView,
> {
    match r {
        Ok(v) => Ok(v.deep_view()),
        Err(e) => Err(e.deep_view()),
    }
}

impl GameStateView {
    /// The position of the planet named `planet_name`, which must exist and
    /// belong to the player whose turn it is.
    pub open spec fn own_planet(self, planet_name: Seq<char>) -> Result<int, CommandErrorView> {
        let qi = self.planet_index(name_id(planet_name));
        if qi < 0 {
            Err(CommandErrorView::UnknownPlanet(planet_name))
        } else {
            match self.map.planets[qi].owner {
                Some(o) => if o == self.players_order[0] {
                    Ok(qi)
                } else {
                    Err(CommandErrorView::WrongPlanetOwner(planet_name))
                },
                None => Err(CommandErrorView::PlanetNotOwned(planet_name)),
            }
        }
    }
}

impl GameState {
    /// Finds the planet named `planet_name` and checks that it belongs to
    /// the player whose turn it is. Returns its position and identifier.
    pub fn find_own_planet(&self, planet_name: &String) -> (r: Result<(usize, String), CommandError>)
        requires
            self.players_order@.len() > 0,
        ensures
            match r {
                Ok((qi, id)) => self.deep_view().own_planet(planet_name@) == Ok::<
                    int,
                    CommandErrorView,
                >(qi as int) && qi < self.map.planets.len() && id@ == name_id(planet_name@),
                Err(e) => self.deep_view().own_planet(planet_name@) == Err::<
                    int,
                    CommandErrorView,
                >(e.deep_view()),
            },
    {
        let planet_id = name_to_id(planet_name.as_str());
        let qi = match self.planet_index(&planet_id) {
            Some(i) => i,
            None => {
                return Err(CommandError::UnknownPlanet(planet_name.clone()));
            },
        };
        assert(self.deep_view().map.planets[qi as int] == self.map.planets[qi as int].deep_view());
        match &self.map.planets[qi].owner {
            Some(owner) => {
                if *owner == *self.current_player() {
                    Ok((qi, planet_id))
                } else {
                    Err(CommandError::WrongPlanetOwner(planet_name.clone()))
                }
            },
            None => Err(CommandError::PlanetNotOwned(planet_name.clone())),
        }
    }
}

} // verus!
