//! The `status` command.
use vstd::prelude::*;
use vstd::string::*;
use crate::commands::checks::checked_view;
use crate::commands::command::{CommandEffect, CommandEffectView, CommandError, CommandErrorView};
use crate::commands::parser::Parseable;
use crate::game_state::{GameState, GameStateView};
use crate::pending_action::{ActionType, ActionTypeView, PendingActionView, action_planets};
use crate::ids::index_in;
use crate::planet::{
    Connection,
    ConnectionView,
    Planet,
    PlanetView,
    push_resources,
    resources_text,
};
use crate::structure::{Structure, StructureState, StructureView};
use crate::text::{before, decimal, owned, push_decimal, str_eq, text_before};

verus! {

/// What `status` reports on.
#[derive(Debug)]
pub enum StatusTarget {
    Turn,
    Planets,
    Planet { id: String },
    Player,
}

/// What a [`StatusTarget`] holds, with every text as its sequence of characters.
pub enum StatusTargetView {
    Turn,
    Planets,
    Planet { id: Seq<char> },
    Player,
}

impl DeepView for StatusTarget {
    type V = StatusTargetView;

    open spec fn deep_view(&self) -> StatusTargetView {
        match self {
            StatusTarget::Turn => StatusTargetView::Turn,
            StatusTarget::Planets => StatusTargetView::Planets,
            StatusTarget::Planet { id } => StatusTargetView::Planet { id: id@ },
            StatusTarget::Player => StatusTargetView::Player,
        }
    }
}

/// The arguments of `status`.
#[derive(Debug)]
pub struct StatusArgs {
    pub target: StatusTarget,
}

impl DeepView for StatusArgs {
    type V = StatusTargetView;

    open spec fn deep_view(&self) -> StatusTargetView {
        self.target.deep_view()
    }
}

/// The error for a `status` command that lacks arguments.
pub open spec fn status_missing(expected: Seq<char>) -> CommandErrorView {
    CommandErrorView::MissingArguments { command: "status"@, expected }
}

impl Parseable for StatusArgs {
    open spec fn parsed(args: Seq<Seq<char>>) -> Result<StatusTargetView, CommandErrorView> {
        if args.len() == 0 {
            Err(status_missing("status <planets|planet <id>|player>"@))
        } else if args[0] == "turn"@ {
            Ok(StatusTargetView::Turn)
        } else if args[0] == "planets"@ {
            Ok(StatusTargetView::Planets)
        } else if args[0] == "planet"@ {
            if args.len() < 2 {
                Err(status_missing("status planet <planet_id>"@))
            } else {
                Ok(StatusTargetView::Planet { id: args[1] })
            }
        } else if args[0] == "player"@ {
            Ok(StatusTargetView::Player)
        } else {
            Err(
                CommandErrorView::InvalidArgument {
                    command: "status"@,
                    argument: args[0],
                    reason: "valid targets are: planets, planet <id>, player"@,
                },
            )
        }
    }

    fn parse(args: Vec<&str>) -> (r: Result<Self, CommandError>) {
        if args.len() == 0 {
            return Err(
                CommandError::MissingArguments {
                    command: owned("status"),
                    expected: owned("status <planets|planet <id>|player>"),
                },
            );
        }
        assert(args.deep_view()[0] == args[0]@);
        let target = if str_eq(args[0], "turn") {
            StatusTarget::Turn
        } else if str_eq(args[0], "planets") {
            StatusTarget::Planets
        } else if str_eq(args[0], "planet") {
            if args.len() < 2 {
                return Err(
                    CommandError::MissingArguments {
                        command: owned("status"),
                        expected: owned("status planet <planet_id>"),
                    },
                );
            }
            assert(args.deep_view()[1] == args[1]@);
            StatusTarget::Planet { id: owned(args[1]) }
        } else if str_eq(args[0], "player") {
            StatusTarget::Player
        } else {
            return Err(
                CommandError::InvalidArgument {
                    command: owned("status"),
                    argument: owned(args[0]),
                    reason: owned("valid targets are: planets, planet <id>, player"),
                },
            );
        };
        Ok(StatusArgs { target })
    }
}

/// The wording of a line shown to the player.
pub open spec fn turn_text(turn: u32) -> Seq<char> {
    "Current turn: "@ + decimal(turn as nat)
}

/// How an owner reads in reports.
pub open spec fn owner_text(owner: Option<Seq<char>>) -> Seq<char> {
    match owner {
        Some(o) => o,
        None => "uncolonized"@,
    }
}

/// The line of one planet in the list of planets.
pub open spec fn planet_line(p: PlanetView) -> Seq<char> {
    p.name + " ("@ + p.id + ") - "@ + owner_text(p.owner) + "\n"@
}

/// The list of the first `n` planets, one line each, under its heading.
pub open spec fn planets_list_text(planets: Seq<PlanetView>, n: int) -> Seq<char>
    decreases n,
{
    if n <= 0 {
        "=== Planets ===\n"@
    } else {
        planets_list_text(planets, n - 1) + planet_line(planets[n - 1])
    }
}

/// The wording of a line shown to the player.
pub open spec fn state_text(state: StructureState) -> Seq<char> {
    match state {
        StructureState::Operational => Seq::empty(),
        StructureState::Upgrading { turns_remaining, target_level } => " (upgrading to Lv"@
            + decimal(target_level as nat) + ", "@ + decimal(turns_remaining as nat) + " turns)"@,
        StructureState::Damaged => " (DAMAGED)"@,
    }
}

/// The line of one structure in a planet's report.
pub open spec fn structure_line(s: StructureView) -> Seq<char> {
    "  "@ + s.name + " ("@ + s.definition.id + "): Lv"@ + decimal(s.level as nat) + "/"@ + decimal(
        s.max_level as nat,
    ) + state_text(s.state) + "\n"@
}

/// The lines of the first `n` structures, in the planet's own order.
pub open spec fn structure_lines(structures: Seq<StructureView>, n: int) -> Seq<char>
    decreases n,
{
    if n <= 0 {
        Seq::empty()
    } else {
        structure_lines(structures, n - 1) + structure_line(structures[n - 1])
    }
}

/// The place, at or after `k`, at which a structure of kind `id` goes into
/// a list in ascending order of kinds: before the first that comes after it.
pub open spec fn slot_for(sorted: Seq<StructureView>, id: Seq<char>, k: int) -> int
    decreases sorted.len() - k,
{
    if k < 0 || k >= sorted.len() {
        sorted.len() as int
    } else if before(id, sorted[k].definition.id) {
        k
    } else {
        slot_for(sorted, id, k + 1)
    }
}

/// The first `n` structures in ascending order of their kinds'
/// identifiers; of two with the same identifier the earlier comes first.
pub open spec fn in_id_order(structures: Seq<StructureView>, n: int) -> Seq<StructureView>
    decreases n,
{
    if n <= 0 {
        Seq::empty()
    } else {
        let rest = in_id_order(structures, n - 1);
        rest.insert(slot_for(rest, structures[n - 1].definition.id, 0), structures[n - 1])
    }
}

/// Whether no structure of the list comes before its forerunner.
pub open spec fn ascending(list: Seq<StructureView>) -> bool {
    forall|k: int|
        0 <= k < list.len() - 1 ==> !before(
            list[k + 1].definition.id,
            #[trigger] list[k].definition.id,
        )
}

/// Where a structure's place is: at or after `k`, behind structures that
/// do not come after it and, unless it goes last, before one that does.
pub proof fn lemma_slot_for(sorted: Seq<StructureView>, id: Seq<char>, k: int)
    requires
        0 <= k <= sorted.len(),
    ensures
        k <= slot_for(sorted, id, k) <= sorted.len(),
        forall|j: int| k <= j < slot_for(sorted, id, k) ==> !before(id, #[trigger] sorted[j].definition.id),
        slot_for(sorted, id, k) < sorted.len() ==> before(
            id,
            sorted[slot_for(sorted, id, k)].definition.id,
        ),
    decreases sorted.len() - k,
{
    if k < sorted.len() && !before(id, sorted[k].definition.id) {
        lemma_slot_for(sorted, id, k + 1);
    }
}

/// The structures put in order are as many as before, and they ascend.
pub proof fn lemma_in_id_order_ascends(structures: Seq<StructureView>, n: int)
    requires
        0 <= n <= structures.len(),
    ensures
        in_id_order(structures, n).len() == n,
        ascending(in_id_order(structures, n)),
    decreases n,
{
    if n > 0 {
        lemma_in_id_order_ascends(structures, n - 1);
        let rest = in_id_order(structures, n - 1);
        let s = structures[n - 1];
        let at = slot_for(rest, s.definition.id, 0);
        lemma_slot_for(rest, s.definition.id, 0);
        let out = rest.insert(at, s);
        assert forall|k: int| 0 <= k < out.len() - 1 implies !before(
            out[k + 1].definition.id,
            #[trigger] out[k].definition.id,
        ) by {
            if k + 1 < at {
                assert(out[k] == rest[k] && out[k + 1] == rest[k + 1]);
            } else if k + 1 == at {
                assert(out[k] == rest[k] && out[k + 1] == s);
            } else if k == at {
                assert(out[k] == s && out[k + 1] == rest[k]);
                crate::text::lemma_before_one_way(s.definition.id, rest[k].definition.id, 0);
            } else {
                assert(out[k] == rest[k - 1] && out[k + 1] == rest[k]);
                assert(!before(rest[k].definition.id, rest[k - 1].definition.id));
            }
        }
    }
}

/// The part of a planet's report on its structures, in ascending order of
/// their kinds' identifiers.
pub open spec fn structures_text(structures: Seq<StructureView>) -> Seq<char> {
    if structures.len() == 0 {
        "\nSTRUCTURES\n  (none)\n"@
    } else {
        "\nSTRUCTURES\n"@ + structure_lines(
            in_id_order(structures, structures.len() as int),
            structures.len() as int,
        )
    }
}

/// The structures that `order` picks, in its order.
pub open spec fn picked_structures(structures: Seq<StructureView>, order: Seq<usize>) -> Seq<
    StructureView,
> {
    Seq::new(order.len(), |k: int| structures[order[k] as int])
}

/// The positions of the structures in ascending order of their kinds' identifiers.
#[verifier::loop_isolation(false)]
pub fn id_order(structures: &Vec<Structure>) -> (order: Vec<usize>)
    ensures
        order.len() == structures.len(),
        forall|k: int| 0 <= k < order.len() ==> #[trigger] order[k] < structures.len(),
        picked_structures(structures.deep_view(), order@) == in_id_order(
            structures.deep_view(),
            structures.len() as int,
        ),
        ascending(picked_structures(structures.deep_view(), order@)),
{
    let ghost list = structures.deep_view();
    let mut order: Vec<usize> = Vec::new();
    assert(picked_structures(list, order@) =~= in_id_order(list, 0));
    let mut i: usize = 0;
    while i < structures.len()
        invariant
            i <= structures.len(),
            order.len() == i,
            forall|k: int| 0 <= k < order.len() ==> #[trigger] order[k] < structures.len(),
            picked_structures(list, order@) == in_id_order(list, i as int),
        decreases structures.len() - i,
    {
        let ghost rest = in_id_order(list, i as int);
        assert(list[i as int] == structures[i as int].deep_view());
        let ghost id = list[i as int].definition.id;
        let mut k: usize = 0;
        while k < order.len()
            invariant
                k <= order.len(),
                slot_for(rest, id, k as int) == slot_for(rest, id, 0),
            decreases order.len() - k,
        {
            assert(rest[k as int] == list[order[k as int] as int]);
            assert(list[order[k as int] as int] == structures[order[k as int] as int].deep_view());
            if text_before(structures[i].id().as_str(), structures[order[k]].id().as_str()) {
                break ;
            }
            k += 1;
        }
        assert(k == slot_for(rest, id, 0));
        order.insert(k, i);
        assert(picked_structures(list, order@) =~= rest.insert(k as int, list[i as int]));
        i += 1;
    }
    proof {
        lemma_in_id_order_ascends(list, structures.len() as int);
    }
    order
}

/// The wording of a line shown to the player.
pub open spec fn action_text(a: ActionTypeView) -> Seq<char> {
    match a {
        ActionTypeView::BuildStructure(id) => "Building "@ + id,
        ActionTypeView::UpgradeStructure(id) => "Upgrading "@ + id,
        ActionTypeView::BuildShip(id) => "Building ship "@ + id,
        ActionTypeView::MoveFleet(fleet, dest) => "Fleet "@ + fleet + " moving to "@ + dest,
        ActionTypeView::BombardPlanet(fleet, target) => "Fleet "@ + fleet + " bombarding "@ + target,
    }
}

/// The wording of a line shown to the player.
pub open spec fn pending_text(a: PendingActionView) -> Seq<char> {
    "\nPENDING ACTION\n"@ + ("  "@ + action_text(a.action_type) + " ("@ + decimal(
        a.cooldown_remaining as nat,
    ) + " turns remaining)\n"@)
}

impl GameStateView {
    /// The name of the planet `id`, or `Unknown`.
    pub open spec fn planet_name(self, id: Seq<char>) -> Seq<char> {
        let qi = self.planet_index(id);
        if qi >= 0 {
            self.map.planets[qi].name
        } else {
            "Unknown"@
        }
    }

    /// The line of one lane in a planet's report.
    pub open spec fn lane_line(self, c: ConnectionView) -> Seq<char> {
        "  "@ + self.planet_name(c.to) + " ("@ + c.to + ") - "@ + decimal(c.distance as nat)
            + " turn(s)\n"@
    }

    /// The lines of the first `n` lanes.
    pub open spec fn lane_lines(self, lanes: Seq<ConnectionView>, n: int) -> Seq<char>
        decreases n,
    {
        if n <= 0 {
            Seq::empty()
        } else {
            self.lane_lines(lanes, n - 1) + self.lane_line(lanes[n - 1])
        }
    }

    /// The part of a planet's report on the action in flight there: shown
    /// only to the planet's owner on their turn.
    pub open spec fn pending_part(self, p: PlanetView) -> Seq<char> {
        let pi = self.acting();
        if p.owner == Some(self.players_order[0]) && pi >= 0 {
            let actions = self.players[pi].pending_actions;
            let ai = index_in(action_planets(actions), p.id);
            if ai >= 0 {
                pending_text(actions[ai])
            } else {
                Seq::empty()
            }
        } else {
            Seq::empty()
        }
    }

    /// The report on one planet: heading, owner, stock, structures, the
    /// action in flight and the lanes.
    pub open spec fn planet_detail_text(self, p: PlanetView) -> Seq<char> {
        "=== "@ + p.name + " ("@ + p.id + ") ===\n"@ + ("Owner: "@ + owner_text(p.owner) + "\n"@)
            + "\nRESOURCES\n"@ + ("  Available: "@ + resources_text(p.available_resources) + "\n"@)
            + ("  Capacity:  "@ + resources_text(p.storage_capacity) + "\n"@) + structures_text(
            p.structures,
        ) + self.pending_part(p) + "\nCONNECTIONS\n"@ + self.lane_lines(
            p.connections,
            p.connections.len() as int,
        )
    }

    /// The line of one planet in a player's report; nothing for a planet that does not exist.
    pub open spec fn holding_line(self, id: Seq<char>) -> Seq<char> {
        let qi = self.planet_index(id);
        if qi >= 0 {
            "  - "@ + self.map.planets[qi].name + " ("@ + self.map.planets[qi].id + ")\n"@
        } else {
            Seq::empty()
        }
    }

    /// The lines of the first `n` planets of a player's list.
    pub open spec fn holding_lines(self, held: Seq<Seq<char>>, n: int) -> Seq<char>
        decreases n,
    {
        if n <= 0 {
            Seq::empty()
        } else {
            self.holding_lines(held, n - 1) + self.holding_line(held[n - 1])
        }
    }

    /// The report on the player whose turn it is.
    pub open spec fn player_status_text(self) -> Seq<char> {
        let p = self.players[self.acting()];
        "=== "@ + p.name + " ===\n"@ + ("Planets owned: "@ + decimal(p.planets.len()) + "\n"@)
            + self.holding_lines(p.planets, p.planets.len() as int)
    }

    /// What a `status` command answers.
    pub open spec fn status_checked(self, target: StatusTargetView) -> Result<
        CommandEffectView,
        CommandErrorView,
    > {
        match target {
            StatusTargetView::Turn => Ok(CommandEffectView::Message { message: turn_text(self.turn) }),
            StatusTargetView::Planets => Ok(
                CommandEffectView::Message {
                    message: planets_list_text(self.map.planets, self.map.planets.len() as int),
                },
            ),
            StatusTargetView::Planet { id } => {
                let qi = self.planet_index(id);
                if qi < 0 {
                    Err(CommandErrorView::UnknownPlanet(id))
                } else {
                    Ok(
                        CommandEffectView::Message {
                            message: self.planet_detail_text(self.map.planets[qi]),
                        },
                    )
                }
            },
            StatusTargetView::Player => Ok(
                CommandEffectView::Message { message: self.player_status_text() },
            ),
        }
    }
}

/// The line on the current turn.
pub fn format_turn(game_state: &GameState) -> (s: String)
    ensures
        s@ == turn_text(game_state.turn),
{
    let mut s = owned("Current turn: ");
    push_decimal(&mut s, game_state.turn as u128);
    s
}

/// The line of one planet in the list of planets.
pub fn format_planet_line(planet: &Planet) -> (s: String)
    ensures
        s@ == planet_line(planet.deep_view()),
{
    let mut s = planet.name.clone();
    s.append(" (");
    s.append(planet.id.as_str());
    s.append(") - ");
    match &planet.owner {
        Some(o) => s.append(o.as_str()),
        None => s.append("uncolonized"),
    }
    s.append("\n");
    s
}

/// The list of all planets, in map order.
#[verifier::loop_isolation(false)]
pub fn format_planets_list(game_state: &GameState) -> (s: String)
    ensures
        s@ == planets_list_text(
            game_state.deep_view().map.planets,
            game_state.map.planets.len() as int,
        ),
{
    let ghost planets = game_state.deep_view().map.planets;
    let mut msg = owned("=== Planets ===\n");
    let mut i: usize = 0;
    while i < game_state.map.planets.len()
        invariant
            i <= game_state.map.planets.len(),
            msg@ == planets_list_text(planets, i as int),
        decreases game_state.map.planets.len() - i,
    {
        assert(planets[i as int] == game_state.map.planets[i as int].deep_view());
        let line = format_planet_line(&game_state.map.planets[i]);
        msg.append(line.as_str());
        i += 1;
    }
    msg
}

/// The line of one structure in a planet's report.
pub fn format_structure_line(structure: &Structure) -> (s: String)
    ensures
        s@ == structure_line(structure.deep_view()),
{
    let mut s = owned("  ");
    s.append(structure.name.as_str());
    s.append(" (");
    s.append(structure.id().as_str());
    s.append("): Lv");
    push_decimal(&mut s, structure.level as u128);
    s.append("/");
    push_decimal(&mut s, structure.max_level as u128);
    let ghost head = s@;
    match structure.state {
        StructureState::Operational => {
            assert(head + Seq::<char>::empty() =~= head);
        },
        StructureState::Upgrading { turns_remaining, target_level } => {
            let mut info = owned(" (upgrading to Lv");
            push_decimal(&mut info, target_level as u128);
            info.append(", ");
            push_decimal(&mut info, turns_remaining as u128);
            info.append(" turns)");
            s.append(info.as_str());
        },
        StructureState::Damaged => {
            s.append(" (DAMAGED)");
        },
    }
    s.append("\n");
    s
}

/// What an action in flight is, in words.
pub fn describe_action(action: &ActionType) -> (s: String)
    ensures
        s@ == action_text(action.deep_view()),
{
    match action {
        ActionType::BuildStructure(id) => {
            let mut s = owned("Building ");
            s.append(id.as_str());
            s
        },
        ActionType::UpgradeStructure(id) => {
            let mut s = owned("Upgrading ");
            s.append(id.as_str());
            s
        },
        ActionType::BuildShip(id) => {
            let mut s = owned("Building ship ");
            s.append(id.as_str());
            s
        },
        ActionType::MoveFleet(fleet, dest) => {
            let mut s = owned("Fleet ");
            s.append(fleet.as_str());
            s.append(" moving to ");
            s.append(dest.as_str());
            s
        },
        ActionType::BombardPlanet(fleet, target) => {
            let mut s = owned("Fleet ");
            s.append(fleet.as_str());
            s.append(" bombarding ");
            s.append(target.as_str());
            s
        },
    }
}

/// The line of one lane in a planet's report.
pub fn format_lane_line(lane: &Connection, game_state: &GameState) -> (s: String)
    ensures
        s@ == game_state.deep_view().lane_line(lane.deep_view()),
{
    let mut s = owned("  ");
    match game_state.planet_index(&lane.to) {
        Some(qi) => {
            assert(game_state.deep_view().map.planets[qi as int]
                == game_state.map.planets[qi as int].deep_view());
            s.append(game_state.map.planets[qi].name.as_str());
        },
        None => {
            s.append("Unknown");
        },
    }
    s.append(" (");
    s.append(lane.to.as_str());
    s.append(") - ");
    push_decimal(&mut s, lane.distance as u128);
    s.append(" turn(s)\n");
    s
}

/// The part of a planet's report on the action in flight there.
pub fn format_pending_part(planet: &Planet, game_state: &GameState) -> (s: String)
    requires
        game_state.players_order@.len() > 0,
    ensures
        s@ == game_state.deep_view().pending_part(planet.deep_view()),
{
    if !planet.is_owned_by(game_state.current_player()) {
        return String::new();
    }
    let pi = match game_state.acting_index() {
        Some(i) => i,
        None => {
            return String::new();
        },
    };
    assert(game_state.deep_view().players[pi as int] == game_state.players[pi as int].deep_view());
    match game_state.players[pi].find_pending_action_on_planet(&planet.id) {
        None => String::new(),
        Some(action) => {
            let mut line = owned("  ");
            line.append(describe_action(&action.action_type).as_str());
            line.append(" (");
            push_decimal(&mut line, action.cooldown_remaining as u128);
            line.append(" turns remaining)\n");
            let mut s = owned("\nPENDING ACTION\n");
            s.append(line.as_str());
            s
        },
    }
}

/// The report on the planet `planet_id`. Its structures are listed in
/// ascending order of their kinds' identifiers.
#[verifier::loop_isolation(false)]
pub fn format_planet_detail(planet_id: &str, game_state: &GameState) -> (r: Result<
    String,
    CommandError,
>)
    requires
        game_state.players_order@.len() > 0,
    ensures
        ({
            let g = game_state.deep_view();
            let qi = g.planet_index(planet_id@);
            match r {
                Ok(s) => qi >= 0 && s@ == g.planet_detail_text(g.map.planets[qi]),
                Err(e) => qi < 0 && e.deep_view() == CommandErrorView::UnknownPlanet(planet_id@),
            }
        }),
{
    let ghost g = game_state.deep_view();
    let key = owned(planet_id);
    let planet = match game_state.planet_index(&key) {
        Some(qi) => {
            assert(g.map.planets[qi as int] == game_state.map.planets[qi as int].deep_view());
            &game_state.map.planets[qi]
        },
        None => {
            return Err(CommandError::UnknownPlanet(key));
        },
    };
    let ghost p = planet.deep_view();
    let mut msg = owned("=== ");
    msg.append(planet.name.as_str());
    msg.append(" (");
    msg.append(planet.id.as_str());
    msg.append(") ===\n");
    let mut line = owned("Owner: ");
    match &planet.owner {
        Some(o) => line.append(o.as_str()),
        None => line.append("uncolonized"),
    }
    line.append("\n");
    msg.append(line.as_str());
    msg.append("\nRESOURCES\n");
    let mut line = owned("  Available: ");
    push_resources(&mut line, &planet.available_resources);
    line.append("\n");
    msg.append(line.as_str());
    let mut line = owned("  Capacity:  ");
    push_resources(&mut line, &planet.storage_capacity);
    line.append("\n");
    msg.append(line.as_str());
    let structures = planet.get_structures();
    let mut part = String::new();
    if structures.len() == 0 {
        part.append("\nSTRUCTURES\n  (none)\n");
        assert(part@ =~= structures_text(p.structures));
    } else {
        let order = id_order(structures);
        let ghost sorted = in_id_order(p.structures, structures.len() as int);
        let mut lines = String::new();
        let mut i: usize = 0;
        while i < order.len()
            invariant
                i <= order.len(),
                lines@ == structure_lines(sorted, i as int),
            decreases order.len() - i,
        {
            assert(sorted[i as int] == p.structures[order[i as int] as int]);
            assert(p.structures[order[i as int] as int]
                == structures[order[i as int] as int].deep_view());
            let one = format_structure_line(&structures[order[i]]);
            lines.append(one.as_str());
            i += 1;
        }
        part.append("\nSTRUCTURES\n");
        part.append(lines.as_str());
        assert(part@ =~= structures_text(p.structures));
    }
    msg.append(part.as_str());
    msg.append(format_pending_part(planet, game_state).as_str());
    msg.append("\nCONNECTIONS\n");
    let lanes = planet.get_connections();
    let mut lines = String::new();
    let mut k: usize = 0;
    while k < lanes.len()
        invariant
            k <= lanes.len(),
            lines@ == g.lane_lines(p.connections, k as int),
        decreases lanes.len() - k,
    {
        assert(p.connections[k as int] == lanes[k as int].deep_view());
        let one = format_lane_line(&lanes[k], game_state);
        lines.append(one.as_str());
        k += 1;
    }
    msg.append(lines.as_str());
    Ok(msg)
}

/// The report on the player whose turn it is.
#[verifier::loop_isolation(false)]
pub fn format_player_status(game_state: &GameState) -> (s: String)
    requires
        game_state.deep_view().acting() >= 0,
    ensures
        s@ == game_state.deep_view().player_status_text(),
{
    let ghost g = game_state.deep_view();
    let pi = game_state.acting_index().unwrap();
    assert(g.players[pi as int] == game_state.players[pi as int].deep_view());
    let player = &game_state.players[pi];
    let ghost held = player.planets.deep_view();
    let mut msg = owned("=== ");
    msg.append(player.name.as_str());
    msg.append(" ===\n");
    let mut line = owned("Planets owned: ");
    push_decimal(&mut line, player.planets.len() as u128);
    line.append("\n");
    msg.append(line.as_str());
    let mut lines = String::new();
    let mut i: usize = 0;
    while i < player.planets.len()
        invariant
            i <= player.planets.len(),
            lines@ == g.holding_lines(held, i as int),
        decreases player.planets.len() - i,
    {
        assert(held[i as int] == player.planets[i as int]@);
        let ghost before = lines@;
        match game_state.planet_index(&player.planets[i]) {
            Some(qi) => {
                assert(g.map.planets[qi as int] == game_state.map.planets[qi as int].deep_view());
                let planet = &game_state.map.planets[qi];
                let mut one = owned("  - ");
                one.append(planet.name.as_str());
                one.append(" (");
                one.append(planet.id.as_str());
                one.append(")\n");
                lines.append(one.as_str());
            },
            None => {
                assert(before + Seq::<char>::empty() =~= before);
            },
        }
        i += 1;
    }
    msg.append(lines.as_str());
    msg
}

/// Answers a `status` command.
pub fn execute(args: StatusArgs, game_state: &GameState) -> (r: Result<CommandEffect, CommandError>)
    requires
        game_state.deep_view().acting() >= 0,
    ensures
        checked_view(r) == game_state.deep_view().status_checked(args.deep_view()),
{
    let message = match args.target {
        StatusTarget::Turn => format_turn(game_state),
        StatusTarget::Planets => format_planets_list(game_state),
        StatusTarget::Planet { id } => match format_planet_detail(id.as_str(), game_state) {
            Ok(m) => m,
            Err(e) => {
                return Err(e);
            },
        },
        StatusTarget::Player => format_player_status(game_state),
    };
    Ok(CommandEffect::Message { message })
}

} // verus!
