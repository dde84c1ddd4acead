//! The session: the live game state and the command dispatcher that drives
//! it. One call handles one line of player input; the caller reads the lines
//! and renders the replies.

use vstd::prelude::*;

use crate::actions::Action;
use crate::charactersheet::Character;
use crate::dialog::DialogEngine;
use crate::room::{
    action_outcome_ok, clone_room, find_exit, lemma_find_exit_element, matches_direction,
    room_view, wf_exit, wf_room, ActionOutcome, Direction, Room, RoomModel,
};
use crate::text::{
    ascii_words, clean_words, first_word, is_quit_word, lower_of, lower_seq, split_words, str_eq,
    word_at, words_of,
};
use crate::world::World;

verus! {

/// What the session answers to one line of player input; the caller puts the
/// words on the screen.
#[derive(Debug)]
pub enum Reply {
    /// Print the command summary.
    Help,
    /// The farewell: the session is over.
    Farewell,
    /// Echo an unknown command back.
    Unknown(String),
    /// The empty line.
    Invalid,
    /// A movement word that names no direction.
    BadDirection,
    /// There is no exit that way.
    CannotGo,
    /// Back is allowed, but no previous room is remembered.
    NoWayBack,
    /// Back is refused here, with the authored reason if there is one.
    BackRefused(Option<String>),
    /// A room was entered: its name and description.
    Entered(String, String),
    /// An action went through the resolver.
    Resolved(ActionOutcome),
    /// The player has no idea how to do that.
    NoIdeaHow,
    /// A conversation opens with this line; drive it with a
    /// [`DialogEngine`].
    Conversation(String),
    /// Nobody is here to talk to.
    TalkRefused,
}

/// The two room slots of a session: where the player is, and where they came
/// from — a single slot, not a history stack.
#[verifier::ext_equal]
pub ghost struct NavState {
    pub current: Option<RoomModel>,
    pub previous: Option<RoomModel>,
}

/// The shape of an optional room.
pub open spec fn opt_room_view(r: Option<Room>) -> Option<RoomModel> {
    match r {
        Some(x) => Some(room_view(x)),
        None => None,
    }
}

/// The shape of an optional line of text.
pub open spec fn opt_string_view(o: Option<String>) -> Option<Seq<char>> {
    match o {
        Some(s) => Some(s@),
        None => None,
    }
}

/// The direction a movement word names.
pub open spec fn parse_direction(w: Seq<char>) -> Option<Direction> {
    if w == "n"@ || w == "north"@ {
        Some(Direction::N)
    } else if w == "s"@ || w == "south"@ {
        Some(Direction::S)
    } else if w == "e"@ || w == "east"@ {
        Some(Direction::E)
    } else if w == "w"@ || w == "west"@ {
        Some(Direction::W)
    } else if w == "back"@ {
        Some(Direction::BACK)
    } else {
        None
    }
}

/// Where the first exit in a direction leads.
pub open spec fn go_target(m: RoomModel, d: Direction) -> Option<RoomModel> {
    match find_exit(m.exits, d) {
        Some(e) => e.room,
        None => None,
    }
}

/// One successful directional move: the target becomes the current room and
/// the room left becomes the single remembered previous room, whatever it
/// held before.
pub open spec fn go_spec(s: NavState, d: Direction) -> NavState
    recommends
        s.current is Some,
        go_target(s.current->0, d) is Some,
{
    NavState { current: go_target(s.current->0, d), previous: s.current }
}

/// The back command: refused without any effect where the room forbids it or
/// where nothing is remembered; otherwise the two slots swap.
pub open spec fn back_spec(s: NavState) -> NavState
    recommends
        s.current is Some,
{
    if !s.current->0.go_back.can_go_back {
        s
    } else if s.previous is None {
        s
    } else {
        NavState { current: s.previous, previous: s.current }
    }
}

/// Where a movement word leaves the two room slots.
pub open spec fn move_result(s: NavState, w: Seq<char>) -> NavState
    recommends
        s.current is Some,
{
    match parse_direction(w) {
        None => s,
        Some(Direction::BACK) => back_spec(s),
        Some(d) => if go_target(s.current->0, d) is Some {
            go_spec(s, d)
        } else {
            s
        },
    }
}

/// A room-entry reply for this room: its name and description.
pub open spec fn entered_reply(r: Reply, m: RoomModel) -> bool {
    r matches Reply::Entered(n, dsc) && n@ == m.name && dsc@ == m.description
}

/// The reply a movement word earns.
pub open spec fn move_reply_ok(s: NavState, w: Seq<char>, r: Reply) -> bool
    recommends
        s.current is Some,
{
    match parse_direction(w) {
        None => r is BadDirection,
        Some(Direction::BACK) => {
            let cur = s.current->0;
            if !cur.go_back.can_go_back {
                r matches Reply::BackRefused(reason) && opt_string_view(reason)
                    == cur.go_back.reason
            } else if s.previous is None {
                r is NoWayBack
            } else {
                entered_reply(r, s.previous->0)
            }
        },
        Some(d) => match go_target(s.current->0, d) {
            Some(t) => entered_reply(r, t),
            None => r is CannotGo,
        },
    }
}

/// Moving through an exit and then back returns to the room one left, with
/// the room just visited now the single remembered previous room — a swap,
/// not a pop from a longer history.
pub proof fn lemma_back_after_go(s: NavState, d: Direction)
    requires
        s.current is Some,
        go_target(s.current->0, d) is Some,
        go_target(s.current->0, d)->0.go_back.can_go_back,
    ensures
        back_spec(go_spec(s, d)).current == s.current,
        back_spec(go_spec(s, d)).previous == Some(go_target(s.current->0, d)->0),
{
}

/// Where back-navigation is forbidden, the back command changes neither room
/// slot, whatever was navigated before.
pub proof fn lemma_back_refused_changes_nothing(s: NavState)
    requires
        s.current is Some,
        !s.current->0.go_back.can_go_back,
    ensures
        back_spec(s) == s,
{
}

/// Core game struct: whether the session is live, the character played, the
/// stat-bonus table, and the two room slots.
#[derive(Debug)]
pub struct Game {
    pub active: bool,
    pub game_character: Character,
    pub stat_bonuses: Vec<i32>,
    pub current_room: Option<Room>,
    pub previous_room: Option<Room>,
}

/// The reply an action command earns, the session left as it was.
pub open spec fn action_reply_ok(pre: Game, action: Action, r: Reply) -> bool
    recommends
        pre.ready(),
{
    let cur = room_view(pre.current_room->0);
    if action == Action::Talk {
        match cur.conversation {
            Some(c) => r matches Reply::Conversation(line) && line@ == c.line,
            None => r is TalkRefused,
        }
    } else if action == Action::NONE {
        r is NoIdeaHow
    } else {
        let stat = if action == Action::Look || action == Action::Explore {
            pre.game_character.stats->0.int
        } else {
            pre.game_character.stats->0.chr
        };
        r matches Reply::Resolved(o) && action_outcome_ok(
            cur,
            action,
            pre.stat_bonuses@[stat as int],
            o,
        )
    }
}

/// One dispatch step: how a list of command words, already folded to lower
/// case, takes the session from `pre` to `post` with reply `r`.
pub open spec fn dispatch_ok(pre: Game, post: Game, ws: Seq<Seq<char>>, r: Reply) -> bool
    recommends
        pre.ready(),
{
    let cmd = first_word(ws);
    let kind = command_kind_spec(cmd);
    &&& post.game_character == pre.game_character
    &&& post.stat_bonuses == pre.stat_bonuses
    &&& (kind is Empty ==> post == pre && r is Invalid)
    &&& (kind is Help ==> post == pre && r is Help)
    &&& (kind is Quit ==> post == (Game { active: false, ..pre }) && r is Farewell)
    &&& (kind is Movement ==> post.active == pre.active && post.nav() == move_result(
        pre.nav(),
        word_at(ws, 1),
    ) && move_reply_ok(pre.nav(), word_at(ws, 1), r))
    &&& (kind is Look ==> post == pre && action_reply_ok(pre, Action::Look, r))
    &&& (kind is Explore ==> post == pre && action_reply_ok(pre, Action::Explore, r))
    &&& (kind is Talk ==> post == pre && action_reply_ok(pre, Action::Talk, r))
    &&& (kind is Unknown ==> post == pre && (r matches Reply::Unknown(w) && w@ == cmd))
}

/// The words of a line, folded to lower case — what the dispatcher sees.
pub open spec fn cleaned_words(s: Seq<char>) -> Seq<Seq<char>> {
    words_of(s).map_values(|w: Seq<char>| lower_of(w))
}

impl Game {
    /// The character is fit to play: stats rolled and each inside the
    /// stat-bonus table's domain.
    pub open spec fn stats_ok(self) -> bool {
        &&& self.game_character.stats is Some
        &&& 0 <= self.game_character.stats->0.int <= 18
        &&& 0 <= self.game_character.stats->0.chr <= 18
    }

    /// The stat-bonus table has its 19 entries, each a sane modifier.
    pub open spec fn table_ok(self) -> bool {
        &&& self.stat_bonuses@.len() == 19
        &&& forall|i: int| 0 <= i < 19 ==> -6 <= #[trigger] self.stat_bonuses@[i] <= 5
    }

    /// Whatever rooms the slots hold are well formed.
    pub open spec fn rooms_ok(self) -> bool {
        &&& (match self.current_room {
            Some(r) => wf_room(room_view(r)),
            None => true,
        })
        &&& (match self.previous_room {
            Some(r) => wf_room(room_view(r)),
            None => true,
        })
    }

    pub open spec fn wf(self) -> bool {
        self.stats_ok() && self.table_ok() && self.rooms_ok()
    }

    /// Fit to dispatch commands: well formed and standing in a room.
    pub open spec fn ready(self) -> bool {
        self.wf() && self.current_room is Some
    }

    /// The two room slots, as shapes.
    pub open spec fn nav(self) -> NavState {
        NavState {
            current: opt_room_view(self.current_room),
            previous: opt_room_view(self.previous_room),
        }
    }

    /// Is the game active?
    pub fn is_active(&self) -> (r: bool)
        ensures
            r == self.active,
    {
        self.active
    }

    /// Sets the game active or not.
    pub fn set_active(&mut self, active: bool)
        ensures
            *final(self) == (Game { active, ..*old(self) }),
    {
        self.active = active;
    }

    /// Puts the player into the world's base room.
    pub fn set_base_room(&mut self, world: &World)
        ensures
            final(self).current_room is Some,
            room_view(final(self).current_room->0) == room_view(world.room),
            *final(self) == (Game {
                current_room: final(self).current_room,
                ..*old(self)
            }),
    {
        let room = clone_room(&world.room);
        self.current_room = Some(room);
    }

    /// Puts the player into a room.
    pub fn set_current_room(&mut self, room: Room)
        ensures
            *final(self) == (Game { current_room: Some(room), ..*old(self) }),
    {
        self.current_room = Some(room);
    }

    /// Remembers a room as the one just left.
    pub fn set_previous_room(&mut self, room: Room)
        ensures
            *final(self) == (Game { previous_room: Some(room), ..*old(self) }),
    {
        self.previous_room = Some(room);
    }

    /// Folds one word to lower case.
    pub fn clean_words(&mut self, word: String) -> (r: String)
        ensures
            *final(self) == *old(self),
            r@ == lower_of(word@),
            vstd::utf8::is_ascii_chars(word@) ==> r@ == lower_seq(word@),
    {
        clean_words(word)
    }

    /// Handles one line of player input: splits it into words, folds them to
    /// lower case, and dispatches.
    pub fn parse_input(&mut self, input: String) -> (r: Reply)
        requires
            old(self).ready(),
        ensures
            final(self).ready(),
            dispatch_ok(*old(self), *final(self), cleaned_words(input@), r),
            ascii_words(words_of(input@)) ==> cleaned_words(input@) == words_of(
                input@,
            ).map_values(|w: Seq<char>| lower_seq(w)),
    {
        let words = split_words(input.as_str());
        let mut result: Vec<String> = Vec::new();
        let ghost ws = words.deep_view();
        let mut i: usize = 0;
        proof {
            assert(result.deep_view() =~= ws.map_values(|w: Seq<char>| lower_of(w)).take(0));
            assert(result.deep_view() =~= ws.map_values(|w: Seq<char>| lower_seq(w)).take(0));
        }
        while i < words.len()
            invariant
                i <= words@.len(),
                ws == words.deep_view(),
                ws.len() == words@.len(),
                result.deep_view() =~= ws.map_values(|w: Seq<char>| lower_of(w)).take(i as int),
                ascii_words(ws) ==> result.deep_view() =~= ws.map_values(
                    |w: Seq<char>| lower_seq(w),
                ).take(i as int),
            decreases words@.len() - i,
        {
            let ghost old_dv = result.deep_view();
            let cleaned = clean_words(words[i].clone());
            result.push(cleaned);
            proof {
                assert(result.deep_view() =~= old_dv.push(lower_of(ws[i as int])));
                assert(result.deep_view() =~= ws.map_values(|w: Seq<char>| lower_of(w)).take(
                    i + 1,
                ));
                if ascii_words(ws) {
                    assert(vstd::utf8::is_ascii_chars(ws[i as int]));
                    assert(cleaned@ == lower_seq(ws[i as int]));
                    assert(result.deep_view() =~= ws.map_values(|w: Seq<char>| lower_seq(w)).take(
                        i + 1,
                    ));
                }
            }
            i = i + 1;
        }
        proof {
            assert(result.deep_view() =~= cleaned_words(input@));
            if ascii_words(ws) {
                assert(result.deep_view() =~= ws.map_values(|w: Seq<char>| lower_seq(w)));
            }
        }
        self.parse_commands(result)
    }

    /// Dispatches one list of command words, already folded to lower case.
    pub fn parse_commands(&mut self, words: Vec<String>) -> (r: Reply)
        requires
            old(self).ready(),
        ensures
            final(self).ready(),
            dispatch_ok(*old(self), *final(self), words.deep_view(), r),
    {
        let ghost ws = words.deep_view();
        let command: &str = if words.len() > 0 {
            words[0].as_str()
        } else {
            proof {
                reveal_strlit("");
            }
            ""
        };
        proof {
            if words.len() == 0 {
                assert(command@ =~= first_word(ws));
            } else {
                assert(command@ == first_word(ws));
            }
        }
        let second: &str = if words.len() > 1 {
            words[1].as_str()
        } else {
            proof {
                reveal_strlit("");
            }
            ""
        };
        proof {
            if words.len() > 1 {
                assert(second@ == word_at(ws, 1));
            } else {
                assert(second@ =~= word_at(ws, 1));
            }
        }
        match classify_command(command) {
            CommandKind::Empty => Reply::Invalid,
            CommandKind::Help => self.show_help(),
            CommandKind::Movement => self.leave_room(second),
            CommandKind::Look => self.process_action(Action::Look),
            CommandKind::Explore => self.process_action(Action::Explore),
            CommandKind::Talk => self.process_action(Action::Talk),
            CommandKind::Quit => self.quit_game(),
            CommandKind::Unknown => Reply::Unknown(String::from_str(command)),
        }
    }

    /// The command summary.
    pub fn show_help(&mut self) -> (r: Reply)
        ensures
            *final(self) == *old(self),
            r is Help,
    {
        Reply::Help
    }

    /// Ends the session.
    pub fn quit_game(&mut self) -> (r: Reply)
        ensures
            *final(self) == (Game { active: false, ..*old(self) }),
            r is Farewell,
    {
        self.active = false;
        Reply::Farewell
    }

    /// Picks the stat an action draws on — intelligence for looking and
    /// exploring, charisma for talking — and resolves the action.
    pub fn process_action(&mut self, action: Action) -> (r: Reply)
        requires
            old(self).ready(),
        ensures
            *final(self) == *old(self),
            action_reply_ok(*old(self), action, r),
    {
        match action {
            Action::Look => {
                let stat = self.game_character.stats.as_ref().unwrap().int;
                self.do_action(Action::Look, stat)
            },
            Action::Explore => {
                let stat = self.game_character.stats.as_ref().unwrap().int;
                self.do_action(Action::Explore, stat)
            },
            Action::Talk => {
                let stat = self.game_character.stats.as_ref().unwrap().chr;
                self.do_action(Action::Talk, stat)
            },
            Action::NONE => Reply::NoIdeaHow,
        }
    }

    /// Resolves an action against the current room with the bonus the raw
    /// stat value earns: talking opens the room's conversation (or is
    /// refused where there is none), everything else — the placeholder
    /// action included — goes through the room's action table and its die
    /// rolls.
    pub fn do_action(&mut self, action: Action, stat_value: i32) -> (r: Reply)
        requires
            old(self).ready(),
            0 <= stat_value <= 18,
        ensures
            *final(self) == *old(self),
            ({
                let cur = room_view(old(self).current_room->0);
                if action == Action::Talk {
                    match cur.conversation {
                        Some(c) => r matches Reply::Conversation(line) && line@ == c.line,
                        None => r is TalkRefused,
                    }
                } else {
                    r matches Reply::Resolved(o) && action_outcome_ok(
                        cur,
                        action,
                        old(self).stat_bonuses@[stat_value as int],
                        o,
                    )
                }
            }),
    {
        let room = self.current_room.as_ref().unwrap();
        if matches_action(action, Action::Talk) {
            match &room.conversation {
                Some(conv) => Reply::Conversation(conv.line.clone()),
                None => Reply::TalkRefused,
            }
        } else {
            let bonus = self.stat_bonuses[stat_value as usize];
            let outcome = room.do_action(action, bonus);
            Reply::Resolved(outcome)
        }
    }

    /// Opens the current room's conversation, where it has one.
    pub fn start_conversation(&self) -> (e: Option<DialogEngine>)
        requires
            self.ready(),
        ensures
            (match room_view(self.current_room->0).conversation {
                Some(c) => {
                    &&& e is Some
                    &&& e->0.wf()
                    &&& e->0.root@ == c
                    &&& e->0.current() == c
                    &&& e->0.path@ == Seq::<usize>::empty()
                },
                None => e is None,
            }),
    {
        let room = self.current_room.as_ref().unwrap();
        match &room.conversation {
            Some(conv) => Some(DialogEngine::new(conv)),
            None => None,
        }
    }

    /// Resolves a movement word and moves: a direction with an exit is taken
    /// (the room left is remembered), "back" follows the room's policy and
    /// the single remembered slot, and anything else changes nothing.
    pub fn leave_room(&mut self, command: &str) -> (r: Reply)
        requires
            old(self).ready(),
        ensures
            final(self).ready(),
            final(self).active == old(self).active,
            final(self).game_character == old(self).game_character,
            final(self).stat_bonuses == old(self).stat_bonuses,
            final(self).nav() == move_result(old(self).nav(), command@),
            move_reply_ok(old(self).nav(), command@, r),
    {
        let direction_to_go: Direction = match direction_of(command) {
            Some(d) => d,
            None => {
                return Reply::BadDirection;
            },
        };
        if matches_direction(direction_to_go, Direction::BACK) {
            let room = self.current_room.as_ref().unwrap();
            if !room.go_back.can_go_back {
                let reason: Option<String> = match &room.go_back.reason {
                    Some(s) => Some(s.clone()),
                    None => None,
                };
                return Reply::BackRefused(reason);
            }
            if self.previous_room.is_none() {
                return Reply::NoWayBack;
            }
            let prev = self.previous_room.take();
            let cur = self.current_room.take();
            self.current_room = prev;
            self.previous_room = cur;
            let entered = self.current_room.as_ref().unwrap();
            let name = entered.name.clone();
            let description = entered.description.clone();
            Reply::Entered(name, description)
        } else {
            let room = self.current_room.as_ref().unwrap();
            proof {
                let m = room_view(*room);
                assert(m == old(self).nav().current->0);
                assert(wf_room(m));
                if find_exit(m.exits, direction_to_go) is Some {
                    lemma_find_exit_element(m.exits, direction_to_go);
                    let witness = choose|i: int|
                        0 <= i < m.exits.len() && m.exits[i] == find_exit(
                            m.exits,
                            direction_to_go,
                        )->0;
                    assert(wf_exit(m.exits[witness]));
                    assert(wf_exit(find_exit(m.exits, direction_to_go)->0));
                }
            }
            let new_room = room.exit(direction_to_go);
            match new_room {
                Some(target) => {
                    let name = target.name.clone();
                    let description = target.description.clone();
                    let old_current = self.current_room.take();
                    self.previous_room = old_current;
                    self.current_room = Some(target);
                    Reply::Entered(name, description)
                },
                None => Reply::CannotGo,
            }
        }
    }
}

/// The kinds of first words the dispatcher distinguishes.
#[derive(Clone, Copy, PartialEq, Eq, Structural, Debug)]
pub enum CommandKind {
    Empty,
    Help,
    Movement,
    Look,
    Explore,
    Talk,
    Quit,
    Unknown,
}

/// The kind of command a first word begins, already folded to lower case.
pub open spec fn command_kind_spec(w: Seq<char>) -> CommandKind {
    if w == Seq::<char>::empty() {
        CommandKind::Empty
    } else if w == "help"@ {
        CommandKind::Help
    } else if w == "go"@ || w == "walk"@ || w == "move"@ {
        CommandKind::Movement
    } else if w == "look"@ {
        CommandKind::Look
    } else if w == "explore"@ {
        CommandKind::Explore
    } else if w == "talk"@ || w == "converse"@ {
        CommandKind::Talk
    } else if is_quit_word(w) {
        CommandKind::Quit
    } else {
        CommandKind::Unknown
    }
}

/// Sorts a first word, already folded to lower case, into the kind of
/// command it begins.
pub fn classify_command(command: &str) -> (c: CommandKind)
    ensures
        c == command_kind_spec(command@),
{
    proof {
        reveal_strlit("");
        reveal_strlit("help");
        reveal_strlit("go");
        reveal_strlit("walk");
        reveal_strlit("move");
        reveal_strlit("look");
        reveal_strlit("explore");
        reveal_strlit("talk");
        reveal_strlit("converse");
        reveal_strlit("q");
        reveal_strlit("quit");
        reveal_strlit("exit");
    }
    if command.is_empty() {
        proof {
            assert(command@ =~= Seq::<char>::empty());
        }
        CommandKind::Empty
    } else if str_eq(command, "help") {
        CommandKind::Help
    } else if str_eq(command, "go") || str_eq(command, "walk") || str_eq(command, "move") {
        CommandKind::Movement
    } else if str_eq(command, "look") {
        CommandKind::Look
    } else if str_eq(command, "explore") {
        CommandKind::Explore
    } else if str_eq(command, "talk") || str_eq(command, "converse") {
        CommandKind::Talk
    } else if str_eq(command, "q") || str_eq(command, "quit") || str_eq(command, "exit") {
        CommandKind::Quit
    } else {
        CommandKind::Unknown
    }
}

/// Resolves a movement word to a direction.
pub fn direction_of(word: &str) -> (r: Option<Direction>)
    ensures
        r == parse_direction(word@),
{
    proof {
        reveal_strlit("n");
        reveal_strlit("north");
        reveal_strlit("s");
        reveal_strlit("south");
        reveal_strlit("e");
        reveal_strlit("east");
        reveal_strlit("w");
        reveal_strlit("west");
        reveal_strlit("back");
    }
    if str_eq(word, "n") || str_eq(word, "north") {
        Some(Direction::N)
    } else if str_eq(word, "s") || str_eq(word, "south") {
        Some(Direction::S)
    } else if str_eq(word, "e") || str_eq(word, "east") {
        Some(Direction::E)
    } else if str_eq(word, "w") || str_eq(word, "west") {
        Some(Direction::W)
    } else if str_eq(word, "back") {
        Some(Direction::BACK)
    } else {
        None
    }
}

/// Compares two actions.
pub fn matches_action(a: Action, b: Action) -> (r: bool)
    ensures
        r == (a == b),
{
    a == b
}


} // verus!
