//! The simpler panels: the elevator, the log reader's and the research
//! panel's paging, and the weapon settings panel with its modify and repair
//! boards.
use vstd::prelude::*;

use crate::effect::{
    combine_two, combines, Effect, EntityId, GlobalEffect, ObjectState, PlayerVitalsTransition, QuestBitValue,
};
use crate::layout::{plug_sidecar, PanelSidecar, PlugKind, Rect, PLUG_CANVAS_W, SETTINGS_PANEL_W};
use crate::hrm::{
    board_step_holds, handle_hrm_msg, hack_shape, HackDiff, HackPhase, HackState, HrmContext,
    KeyPadMsg,
};
use crate::text::{
    decimal, format_numbers, format_scan, localized_fallback, push_decimal, quoted_text, unescape_newlines,
};

verus! {

/// Whether deck `deck` (1..=5) can be reached with the `ElevState` quest bit
/// at `elev_state`: 0 is no power, 1 the partial lockout (decks 1 to 3),
/// 2 every deck; any other value reaches nothing.
pub open spec fn spec_floor_available(elev_state: u32, deck: usize) -> bool {
    if elev_state == 1 {
        deck <= 3
    } else {
        elev_state == 2
    }
}

/// Whether the elevator panel offers a deck.
pub fn is_floor_available(elev_state: u32, deck: usize) -> (r: bool)
    ensures
        r == spec_floor_available(elev_state, deck),
{
    match elev_state {
        0 => false,
        1 => deck <= 3,
        2 => true,
        _ => false,
    }
}

/// The five main-tram stops, deck 1 first.
pub const ELEVATOR_STOPS: [&'static str; 5] = ["eng1.mis", "medsci1.mis", "hydro2.mis", "ops2.mis", "rec1.mis"];

/// The floor labels when the string table gives none, deck 1 first.
pub const FALLBACK_FLOOR_LABELS: [&'static str; 5] = [
    "Engineering (1)",
    "Med / Sci (2)",
    "Hydroponics (3)",
    "Operations (4)",
    "Recreational (5)",
];

/// The blocked-shaft line when the string table gives none.
pub const FALLBACK_BLOCKED_LABEL: &'static str = "Error!  Shaft inaccessible!";

/// The string-table key of deck `deck`'s floor label: `elevlevel<deck>`.
pub fn floor_label_key(deck: usize) -> (r: String)
    requires
        deck <= 5,
    ensures
        r@ == "elevlevel"@ + decimal(deck as int),
{
    let mut key = String::from_str("elevlevel");
    push_decimal(&mut key, deck as i64);
    key
}

/// The string-table key of the blocked-shaft line.
pub const BLOCKED_LABEL_KEY: &'static str = "elevblocked";

/// What the elevator panel draws with: the current mission's file name, the
/// five floor labels (deck 1 first) and the blocked-shaft line.
pub struct ElevatorContext {
    pub current_level: String,
    pub floor_labels: [String; 5],
    pub blocked_label: String,
}

impl ElevatorContext {
    /// The panel's texts for a mission: the string table's labels where it
    /// has them, the English ones where it does not.
    pub fn new(current_level: &str, floor_labels: [Option<&str>; 5], blocked_label: Option<&str>) -> (r:
        ElevatorContext)
        ensures
            r.current_level@ == current_level@,
            forall|i: int|
                0 <= i < 5 ==> #[trigger] r.floor_labels[i]@ == match floor_labels[i] {
                    Some(l) => l@,
                    None => FALLBACK_FLOOR_LABELS[i]@,
                },
            r.blocked_label@ == match blocked_label {
                Some(b) => b@,
                None => FALLBACK_BLOCKED_LABEL@,
            },
    {
        let mut labels: Vec<String> = Vec::new();
        let mut i: usize = 0;
        while i < 5
            invariant
                i <= 5,
                labels@.len() == i,
                forall|k: int|
                    0 <= k < i ==> #[trigger] labels@[k]@ == match floor_labels[k] {
                        Some(l) => l@,
                        None => FALLBACK_FLOOR_LABELS[k]@,
                    },
            decreases 5 - i,
        {
            let label = match floor_labels[i] {
                Some(l) => String::from_str(l),
                None => String::from_str(FALLBACK_FLOOR_LABELS[i]),
            };
            labels.push(label);
            i += 1;
        }
        let l4 = labels.pop().unwrap();
        let l3 = labels.pop().unwrap();
        let l2 = labels.pop().unwrap();
        let l1 = labels.pop().unwrap();
        let l0 = labels.pop().unwrap();
        ElevatorContext {
            current_level: String::from_str(current_level),
            floor_labels: [l0, l1, l2, l3, l4],
            blocked_label: match blocked_label {
                Some(b) => String::from_str(b),
                None => String::from_str(FALLBACK_BLOCKED_LABEL),
            },
        }
    }
}

/// A character with ASCII upper case folded to lower case.
pub open spec fn ascii_lower(c: char) -> char {
    if 'A' <= c <= 'Z' {
        ((c as u32) + 32) as char
    } else {
        c
    }
}

/// Whether two strings are equal up to ASCII case.
pub open spec fn spec_eq_ignore_ascii_case(a: Seq<char>, b: Seq<char>) -> bool {
    a.len() == b.len() && forall|i: int| 0 <= i < a.len() ==> ascii_lower(#[trigger] a[i]) == ascii_lower(b[i])
}

fn lower(c: char) -> (r: char)
    ensures
        r == ascii_lower(c),
{
    if 'A' <= c && c <= 'Z' {
        let v: u8 = (c as u32 + 32) as u8;
        v as char
    } else {
        c
    }
}

/// Whether two strings are equal up to ASCII case.
pub fn eq_ignore_ascii_case(a: &str, b: &str) -> (r: bool)
    ensures
        r == spec_eq_ignore_ascii_case(a@, b@),
{
    let n = a.unicode_len();
    if n != b.unicode_len() {
        return false;
    }
    let mut i: usize = 0;
    while i < n
        invariant
            i <= n,
            n == a@.len(),
            n == b@.len(),
            forall|k: int| 0 <= k < i ==> ascii_lower(#[trigger] a@[k]) == ascii_lower(b@[k]),
        decreases n - i,
    {
        if lower(a.get_char(i)) != lower(b.get_char(i)) {
            return false;
        }
        i += 1;
    }
    true
}

/// How a floor's button draws: lit and inert for the deck the player is on, a
/// live button for a reachable one, inert with the blocked line otherwise.
#[derive(Clone, Copy, Debug, PartialEq, Eq, Structural)]
pub enum FloorButtonKind {
    Current,
    Available,
    Blocked,
}

/// One floor button of the elevator panel.
pub struct FloorButton {
    pub deck: usize,
    pub level_file: &'static str,
    pub kind: FloorButtonKind,
    /// The floor label, or the blocked line for a blocked floor.
    pub text: String,
    /// The button's rest and lit art, `elev<deck>0.pcx` and `elev<deck>1.pcx`.
    pub up_texture: String,
    pub on_texture: String,
    pub rect: Rect,
}

/// What the button in row `row` (0 at the top, deck 5) holds.
pub open spec fn floor_button_holds(b: FloorButton, row: int, ctx: ElevatorContext, elev_state: u32) -> bool {
    let deck = 5 - row;
    let level = ELEVATOR_STOPS[deck - 1];
    let kind = if spec_eq_ignore_ascii_case(level@, ctx.current_level@) {
        FloorButtonKind::Current
    } else if spec_floor_available(elev_state, deck as usize) {
        FloorButtonKind::Available
    } else {
        FloorButtonKind::Blocked
    };
    &&& b.deck == deck
    &&& b.level_file@ == level@
    &&& b.kind == kind
    &&& b.text@ == if kind == FloorButtonKind::Blocked {
        ctx.blocked_label@
    } else {
        ctx.floor_labels[deck - 1]@
    }
    &&& b.up_texture@ == "elev"@ + decimal(deck) + "0.pcx"@
    &&& b.on_texture@ == "elev"@ + decimal(deck) + "1.pcx"@
    &&& b.rect == (Rect { x: 14, y: (6 + 58 * row) as i32, w: 142, h: 54 })
}

/// The elevator panel.
pub struct ElevatorGui;

/// The elevator panel keeps no state.
#[derive(Clone, Copy, Debug, Default)]
pub struct ElevatorGuiState {}

/// Input to the elevator panel: a floor's button, naming its mission file.
#[derive(Clone, Debug)]
pub enum ElevatorGuiMsg {
    ButtonPressed(String),
}

impl ElevatorGui {
    /// The panel's backdrop: the power-off art while `ElevState` is 0.
    pub fn backdrop(&self, elev_state: u32) -> (r: &'static str)
        ensures
            r@ == if elev_state == 0 {
                "iface/power.pcx"@
            } else {
                "elev.pcx"@
            },
    {
        if elev_state == 0 {
            "iface/power.pcx"
        } else {
            "elev.pcx"
        }
    }

    /// The floor buttons, top (deck 5) to bottom (deck 1); none while the
    /// elevator is unpowered.
    pub fn floor_buttons(&self, ctx: &ElevatorContext, elev_state: u32) -> (r: Vec<FloorButton>)
        ensures
            elev_state == 0 ==> r@.len() == 0,
            elev_state != 0 ==> r@.len() == 5 && forall|row: int|
                0 <= row < 5 ==> floor_button_holds(#[trigger] r@[row], row, *ctx, elev_state),
    {
        let mut buttons: Vec<FloorButton> = Vec::new();
        if elev_state == 0 {
            return buttons;
        }
        let mut row: usize = 0;
        while row < 5
            invariant
                row <= 5,
                buttons@.len() == row,
                forall|k: int| 0 <= k < row ==> floor_button_holds(#[trigger] buttons@[k], k, *ctx, elev_state),
            decreases 5 - row,
        {
            let deck = 5 - row;
            let level = ELEVATOR_STOPS[deck - 1];
            let kind = if eq_ignore_ascii_case(level, ctx.current_level.as_str()) {
                FloorButtonKind::Current
            } else if is_floor_available(elev_state, deck) {
                FloorButtonKind::Available
            } else {
                FloorButtonKind::Blocked
            };
            let text = if kind == FloorButtonKind::Blocked {
                ctx.blocked_label.clone()
            } else {
                ctx.floor_labels[deck - 1].clone()
            };
            let mut up_texture = String::from_str("elev");
            push_decimal(&mut up_texture, deck as i64);
            up_texture.append("0.pcx");
            let mut on_texture = String::from_str("elev");
            push_decimal(&mut on_texture, deck as i64);
            on_texture.append("1.pcx");
            let rect = Rect { x: 14, y: 6 + 58 * row as i32, w: 142, h: 54 };
            buttons.push(FloorButton { deck, level_file: level, kind, text, up_texture, on_texture, rect });
            row += 1;
        }
        buttons
    }

    /// A floor's button rides to that deck, arriving at location 22 with the
    /// player's pools carried over.
    pub fn handle_msg(&self, state: &ElevatorGuiState, msg: &ElevatorGuiMsg) -> (r: (ElevatorGuiState, Effect))
        ensures
            r.1 matches Effect::GlobalEffect(
                GlobalEffect::TransitionLevel { level_file, loc, entities_to_trigger, vitals_transition },
            ) && level_file@ == msg->ButtonPressed_0@ && loc == Some(22i32) && entities_to_trigger@.len() == 0
                && vitals_transition == PlayerVitalsTransition::Preserve,
    {
        let ElevatorGuiMsg::ButtonPressed(level) = msg;
        (
            ElevatorGuiState {},
            Effect::GlobalEffect(
                GlobalEffect::TransitionLevel {
                    level_file: level.clone(),
                    loc: Some(22),
                    entities_to_trigger: Vec::new(),
                    vitals_transition: PlayerVitalsTransition::Preserve,
                },
            ),
        )
    }
}

/// Transcript lines on one page of the log reader.
pub const PAGE_LINES: usize = 13;

/// The log reader's scroll position: the first transcript line shown.
#[derive(Clone, Copy, Debug, PartialEq, Eq, Structural)]
pub struct MediaGuiState {
    pub scroll: usize,
}

/// Paging the log reader.
#[derive(Clone, Copy, Debug, PartialEq, Eq, Structural)]
pub enum MediaGuiMsg {
    PageUp,
    PageDown,
}

/// The log reader's paging: a page back (not past the top), or a page on,
/// stopping at the last full page so a transcript that fits never scrolls.
pub open spec fn spec_scroll(scroll: int, page: int, line_count: int, down: bool) -> int {
    let max_scroll = if line_count > page { line_count - page } else { 0 };
    if down {
        if scroll + page < max_scroll { scroll + page } else { max_scroll }
    } else {
        if scroll > page { scroll - page } else { 0 }
    }
}

/// Paging never leaves the transcript: from any position on it, a page
/// either way lands between the top and the last full page, and a
/// transcript that fits on one page never scrolls at all.
pub proof fn law_paging_stays_on_the_transcript(scroll: int, line_count: int, down: bool)
    requires
        0 <= line_count,
        0 <= scroll <= (if line_count > PAGE_LINES { line_count - PAGE_LINES } else { 0 }),
    ensures
        0 <= spec_scroll(scroll, PAGE_LINES as int, line_count, down) <= (if line_count > PAGE_LINES {
            line_count - PAGE_LINES
        } else {
            0
        }),
        line_count <= PAGE_LINES ==> spec_scroll(scroll, PAGE_LINES as int, line_count, down) == 0,
{
}

/// The log reader panel.
pub struct MediaGui;

impl MediaGui {
    /// Pages the transcript, which wraps to `line_count` lines.
    pub fn handle_msg(&self, state: &MediaGuiState, msg: &MediaGuiMsg, line_count: usize) -> (r: (MediaGuiState, Effect))
        requires
            state.scroll + PAGE_LINES <= usize::MAX,
        ensures
            r.0.scroll == spec_scroll(state.scroll as int, PAGE_LINES as int, line_count as int, *msg == MediaGuiMsg::PageDown),
            r.1 is NoEffect,
    {
        let max_scroll = line_count.saturating_sub(PAGE_LINES);
        let scroll = match msg {
            MediaGuiMsg::PageUp => state.scroll.saturating_sub(PAGE_LINES),
            MediaGuiMsg::PageDown => {
                let target = state.scroll + PAGE_LINES;
                if target < max_scroll {
                    target
                } else {
                    max_scroll
                }
            },
        };
        (MediaGuiState { scroll }, Effect::NoEffect)
    }

    /// The reader starts at the top every time it is opened.
    pub fn resets_state_on_frob(&self) -> (r: bool)
        ensures
            r,
    {
        true
    }

    /// A disc with no readable log neither opens the reader nor does
    /// anything when frobbed.
    pub fn opens_on_frob(&self, deck: u32, log: u32) -> (r: bool)
        ensures
            r == (spec_readable_log(deck, log) is Some),
    {
        readable_log(deck, log).is_some()
    }

    /// Frobbing a readable disc collects its log and plays its audio; the
    /// first time the log is collected it also turns on the disc's switch
    /// links (`switch_links`); and it sets the objective the disc carries
    /// (`quest_bit`) unless that would move the objective back from where it
    /// stands (`current`). A disc without a readable log does nothing.
    pub fn on_frob(
        &self,
        entity_id: EntityId,
        deck: u32,
        log: u32,
        already_collected: bool,
        switch_links: Effect,
        quest_bit: Option<(String, QuestBitValue)>,
        current: QuestBitValue,
    ) -> (e: Effect)
        ensures
            spec_readable_log(deck, log) is None ==> e is NoEffect,
            spec_readable_log(deck, log) is Some ==> (e matches Effect::Combined { effects } && {
                &&& effects@.len() == 4
                &&& effects@[0] == (Effect::CollectLog { entity_id, deck, log })
                &&& effects@[1] matches Effect::PlayNamedSound { source, name } && source is None && name@
                    == spec_log_audio_name(deck, log)
                &&& (if already_collected {
                    effects@[2] is NoEffect
                } else {
                    effects@[2] == switch_links
                })
                &&& match quest_bit {
                    Some((n, v)) if !spec_is_downgrade(current, v) => effects@[3] matches Effect::SetQuestBit {
                        quest_bit_name,
                        quest_bit_value,
                    } && quest_bit_name@ == n@ && quest_bit_value == v,
                    _ => effects@[3] is NoEffect,
                }
            }),
    {
        if readable_log(deck, log).is_none() {
            return Effect::NoEffect;
        }
        let collect = Effect::CollectLog { entity_id, deck, log };
        let audio = Effect::PlayNamedSound { source: None, name: log_audio_name(deck, log) };
        let links = if already_collected {
            Effect::NoEffect
        } else {
            switch_links
        };
        let bit = match quest_bit {
            Some((n, v)) => if is_downgrade(current, v) {
                Effect::NoEffect
            } else {
                Effect::SetQuestBit { quest_bit_name: n, quest_bit_value: v }
            },
            None => Effect::NoEffect,
        };
        let mut effects: Vec<Effect> = Vec::new();
        effects.push(collect);
        effects.push(audio);
        effects.push(links);
        effects.push(bit);
        Effect::Combined { effects }
    }
}

/// A `PropLog` field that decodes to this was not set.
pub const LOG_UNSET: u32 = 33;

/// The `(deck, log)` a disc can be read as: both set, the log not the unset
/// marker.
pub open spec fn spec_readable_log(deck: u32, log: u32) -> Option<(u32, u32)> {
    if deck > 0 && log > 0 && log != LOG_UNSET {
        Some((deck, log))
    } else {
        None
    }
}

/// The `(deck, log)` a disc can be read as, if any.
pub fn readable_log(deck: u32, log: u32) -> (r: Option<(u32, u32)>)
    ensures
        r == spec_readable_log(deck, log),
{
    if deck > 0 && log > 0 && log != LOG_UNSET {
        Some((deck, log))
    } else {
        None
    }
}

/// The order of quest bit states: unknown, then incomplete, then complete.
pub open spec fn quest_rank(v: QuestBitValue) -> int {
    match v {
        QuestBitValue::Unknown => 0,
        QuestBitValue::Incomplete => 1,
        QuestBitValue::Complete => 2,
    }
}

/// Whether setting a bit to `new` would move it back from `current`.
pub open spec fn spec_is_downgrade(current: QuestBitValue, new: QuestBitValue) -> bool {
    quest_rank(current) > quest_rank(new)
}

/// Whether setting a bit to `new` would move it back from `current`.
pub fn is_downgrade(current: QuestBitValue, new: QuestBitValue) -> (r: bool)
    ensures
        r == spec_is_downgrade(current, new),
{
    let rank_current: u8 = match current {
        QuestBitValue::Unknown => 0,
        QuestBitValue::Incomplete => 1,
        QuestBitValue::Complete => 2,
    };
    let rank_new: u8 = match new {
        QuestBitValue::Unknown => 0,
        QuestBitValue::Incomplete => 1,
        QuestBitValue::Complete => 2,
    };
    rank_current > rank_new
}

/// A number in at least two decimal digits (`{:02}`).
pub open spec fn two_digit(n: u32) -> Seq<char> {
    if n < 10 {
        seq!['0'] + decimal(n as int)
    } else {
        decimal(n as int)
    }
}

/// The audio of a log: `LOG<deck><log>`, each in two digits.
pub open spec fn spec_log_audio_name(deck: u32, log: u32) -> Seq<char> {
    "LOG"@ + two_digit(deck) + two_digit(log)
}

fn push_two_digits(s: &mut String, n: u32)
    ensures
        final(s)@ == old(s)@ + two_digit(n),
{
    if n < 10 {
        crate::text::push_char(s, '0');
    }
    push_decimal(s, n as i64);
    proof {
        if n < 10 {
            assert(s@ =~= old(s)@ + (seq!['0'] + decimal(n as int)));
        }
    }
}

/// The audio name of a log; see [`spec_log_audio_name`].
pub fn log_audio_name(deck: u32, log: u32) -> (r: String)
    ensures
        r@ == spec_log_audio_name(deck, log),
{
    let mut name = String::from_str("LOG");
    push_two_digits(&mut name, deck);
    push_two_digits(&mut name, log);
    name
}

/// The texture of portrait or deck-icon art named `name`: the name in lower
/// case, `.pcx` appended.
pub fn pcx_name(name: &str) -> (r: String)
    ensures
        r@ == name@.map_values(|c: char| crate::scripts::lower_ascii(c)) + ".pcx"@,
{
    let mut t = crate::scripts::to_ascii_lowercase(name);
    t.append(".pcx");
    t
}

/// The research panel's scroll position.
#[derive(Clone, Copy, Debug, PartialEq, Eq, Structural)]
pub struct ResearchGuiState {
    pub scroll: usize,
}

/// Input to the research panel.
#[derive(Clone, Copy, Debug, PartialEq, Eq, Structural)]
pub enum ResearchGuiMsg {
    ToggleReport,
    Suspend,
    PageUp,
    PageDown,
}

/// The research panel.
pub struct ResearchGui;

impl ResearchGui {
    /// REPORT opens the reports and SUSPEND suspends the research (and
    /// scrolls back to the top); the page buttons page a text of
    /// `line_count` lines `page_lines` at a time, as the log reader does.
    pub fn handle_msg(&self, state: &ResearchGuiState, msg: &ResearchGuiMsg, page_lines: usize, line_count: usize) -> (r: (
        ResearchGuiState,
        Effect,
    ))
        requires
            state.scroll + page_lines <= usize::MAX,
        ensures
            match *msg {
                ResearchGuiMsg::ToggleReport => r.0 == *state && r.1 is OpenResearchReports,
                ResearchGuiMsg::Suspend => r.0.scroll == 0 && r.1 is SuspendResearch,
                ResearchGuiMsg::PageUp => r.0.scroll == spec_scroll(state.scroll as int, page_lines as int, line_count as int, false)
                    && r.1 is NoEffect,
                ResearchGuiMsg::PageDown => r.0.scroll == spec_scroll(state.scroll as int, page_lines as int, line_count as int, true)
                    && r.1 is NoEffect,
            },
    {
        match msg {
            ResearchGuiMsg::ToggleReport => (*state, Effect::OpenResearchReports),
            ResearchGuiMsg::Suspend => (ResearchGuiState { scroll: 0 }, Effect::SuspendResearch),
            ResearchGuiMsg::PageUp => (ResearchGuiState { scroll: state.scroll.saturating_sub(page_lines) }, Effect::NoEffect),
            ResearchGuiMsg::PageDown => {
                let max_scroll = line_count.saturating_sub(page_lines);
                let target = state.scroll + page_lines;
                (ResearchGuiState { scroll: if target < max_scroll { target } else { max_scroll } }, Effect::NoEffect)
            },
        }
    }

    /// Frobbing a researchable item begins researching it.
    pub fn on_frob(&self, entity_id: EntityId) -> (e: Effect)
        ensures
            e == (Effect::BeginResearch { entity_id }),
    {
        Effect::BeginResearch { entity_id }
    }

    /// The first line of text shown of a report of `line_count` lines at
    /// scroll `scroll`: the scroll, held so that a full page still shows.
    pub fn first_shown_line(&self, scroll: usize, page_lines: usize, line_count: usize) -> (r: usize)
        ensures
            r == if scroll < line_count - page_lines {
                scroll as int
            } else if line_count > page_lines {
                line_count - page_lines
            } else {
                0
            },
    {
        let max_scroll = line_count.saturating_sub(page_lines);
        if scroll < max_scroll {
            scroll
        } else {
            max_scroll
        }
    }

    /// SUSPEND shows while research runs and is not complete.
    pub fn shows_suspend(&self, active: bool, complete: bool) -> (r: bool)
        ensures
            r == (active && !complete),
    {
        active && !complete
    }

    /// The page buttons show while research is not running and the report
    /// is longer than a page.
    pub fn shows_paging(&self, active: bool, page_lines: usize, line_count: usize) -> (r: bool)
        ensures
            r == (!active && line_count > page_lines),
    {
        !active && line_count > page_lines
    }
}

/// The Research level an item demands: its authored one, at least 1 (1
/// when it authors none).
pub fn required_research_level(authored: Option<i32>) -> (r: i32)
    ensures
        r == match authored {
            Some(a) => if a < 1 {
                1i32
            } else {
                a
            },
            None => 1i32,
        },
{
    match authored {
        Some(a) => if a < 1 {
            1
        } else {
            a
        },
        None => 1,
    }
}

/// The research panel's title: the item's name once researched (or the
/// stock line without one), the unresearched label before.
pub fn research_title(complete: bool, short_name: Option<&str>, unresearched_label: &str) -> (r: String)
    ensures
        r@ == if complete {
            match short_name {
                Some(n) => n@,
                None => "Research complete"@,
            }
        } else {
            unresearched_label@
        },
{
    if complete {
        match short_name {
            Some(n) => String::from_str(n),
            None => String::from_str("Research complete"),
        }
    } else {
        String::from_str(unresearched_label)
    }
}

/// The research panel's text, for an item demanding `required_skill` of a
/// player with `player_skill`: the skill demand while research has not
/// started and the player lacks it, then the missing chemical, the finished
/// line, the item's own progress text (`progress_text`, the stock line
/// without one) while it runs, and the suspended line otherwise.
pub open spec fn spec_research_text(
    required_skill: i32,
    player_skill: i32,
    started: bool,
    needed_chemical: Option<Seq<char>>,
    complete: bool,
    active: bool,
    progress_text: Option<Seq<char>>,
) -> Seq<char> {
    if player_skill < required_skill && !started {
        "This item requires a Research skill of "@ + decimal(required_skill as int)
            + ". Use a Tech Upgrade Unit to train Research."@
    } else if needed_chemical is Some {
        "Research paused. Required chemical: "@ + needed_chemical->0 + "."@
    } else if complete {
        "Research complete. The item is now ready for use. Select the report button to review your findings."@
    } else if active {
        match progress_text {
            Some(t) => t,
            None => "Research in progress."@,
        }
    } else {
        "Research suspended. Double-click this item to resume."@
    }
}

/// The research panel's text; see [`spec_research_text`].
pub fn research_text(
    required_skill: i32,
    player_skill: i32,
    started: bool,
    needed_chemical: Option<&str>,
    complete: bool,
    active: bool,
    progress_text: Option<&str>,
) -> (r: String)
    ensures
        r@ == spec_research_text(
            required_skill,
            player_skill,
            started,
            match needed_chemical {
                Some(c) => Some(c@),
                None => None,
            },
            complete,
            active,
            match progress_text {
                Some(t) => Some(t@),
                None => None,
            },
        ),
{
    if player_skill < required_skill && !started {
        let mut text = String::from_str("This item requires a Research skill of ");
        push_decimal(&mut text, required_skill as i64);
        text.append(". Use a Tech Upgrade Unit to train Research.");
        text
    } else if let Some(chemical) = needed_chemical {
        let mut text = String::from_str("Research paused. Required chemical: ");
        text.append(chemical);
        text.append(".");
        text
    } else if complete {
        String::from_str(
            "Research complete. The item is now ready for use. Select the report button to review your findings.",
        )
    } else if active {
        match progress_text {
            Some(t) => String::from_str(t),
            None => String::from_str("Research in progress."),
        }
    } else {
        String::from_str("Research suspended. Double-click this item to resume.")
    }
}

/// The entity-metadata key a chemical is looked up under: its symbolic name
/// in lower case.
pub fn chemical_key(sym_name: &str) -> (r: String)
    ensures
        r@ == sym_name@.map_values(|c: char| crate::scripts::lower_ascii(c)),
{
    crate::scripts::to_ascii_lowercase(sym_name)
}

/// The name a research item shows for a chemical it needs: the English text
/// of the chemical's authored short name (`short_name`, found under
/// [`chemical_key`]), or its symbolic name when it has none.
pub fn chemical_display_name(sym_name: &str, short_name: Option<&str>) -> (r: String)
    ensures
        r@ == match short_name {
            Some(s) => unescape_newlines(quoted_text(s@)),
            None => sym_name@,
        },
{
    match short_name {
        Some(s) => localized_fallback(s),
        None => String::from_str(sym_name),
    }
}

/// Whether an open weapon settings panel must close: it shows only the gun
/// it was opened for, so it closes once that gun is no longer wielded.
pub fn should_close_settings_panel(opened_for: EntityId, wielded: Option<EntityId>) -> (r: bool)
    ensures
        r == (wielded != Some(opened_for)),
{
    match wielded {
        Some(w) => w != opened_for,
        None => true,
    }
}

/// The line a fire-setting row reads: "{header}: {description}", or the
/// header alone; a setting without a header has no row at all.
pub fn row_text(header: Option<&str>, description: Option<&str>) -> (r: Option<String>)
    ensures
        match header {
            None => r is None,
            Some(h) => r matches Some(t) && t@ == match description {
                Some(d) => h@ + ": "@ + d@,
                None => h@,
            },
        },
{
    let header = match header {
        Some(h) => h,
        None => return None,
    };
    let mut line = String::from_str(header);
    match description {
        Some(d) => {
            line.append(": ");
            line.append(d);
        },
        None => {},
    }
    Some(line)
}

/// The modification line: the level substituted into the `ModLevel` format
/// ("Modification Level %d"); a format without the placeholder reads as is.
pub fn mod_level_text(format: &str, modification: i32) -> (r: String)
    ensures
        r@ == format_scan(format@, seq![modification]),
{
    let args = [modification];
    let r = format_numbers(format, args.as_slice());
    assert(args@ =~= seq![modification]);
    r
}

/// What an open HRM board on the weapon settings panel is doing to the gun.
#[derive(Clone, Copy, Debug, PartialEq, Eq, Structural)]
pub enum HrmJob {
    /// Modifying from this level; a change of level mid-board aborts it.
    Modify(i32),
    Repair,
}

/// The board mode a job plays.
pub open spec fn job_context(job: HrmJob) -> HrmContext {
    match job {
        HrmJob::Modify(_) => HrmContext::Modify,
        HrmJob::Repair => HrmContext::Repair,
    }
}

impl HrmJob {
    /// The board mode this job plays.
    pub fn context(self) -> (r: HrmContext)
        ensures
            r == job_context(self),
    {
        match self {
            HrmJob::Modify(_) => HrmContext::Modify,
            HrmJob::Repair => HrmContext::Repair,
        }
    }
}

/// The weapon settings panel's state: the board it has open, if any, with
/// the job and the terms it was dealt on.
#[derive(Clone, Copy, Debug)]
pub struct WeaponSettingsGuiState {
    pub board: Option<(HrmJob, HackDiff, HackState)>,
}

/// Input to the weapon settings panel.
#[derive(Clone, Copy, Debug, PartialEq, Eq, Structural)]
pub enum WeaponSettingsGuiMsg {
    /// Switch the gun to fire setting 0 or 1.
    SelectSetting(i32),
    /// Eject the magazine back to the backpack.
    Unload,
    Modify,
    Repair,
    Board(KeyPadMsg),
}

/// What the world says about the panel's gun when a message arrives.
pub struct WeaponJobTerms {
    /// The gun's modification level, when it has one.
    pub modification_level: Option<i32>,
    /// The terms of its next modification, or why there is none.
    pub modify_quote: Result<HackDiff, String>,
    /// The terms of its repair, or why there is none.
    pub repair_quote: Result<HackDiff, String>,
    /// The string-table text of a won and of a lost modification.
    pub modify_won_text: String,
    pub modify_lost_text: String,
}

/// The quote for a job.
pub open spec fn job_quote(job: HrmJob, terms: WeaponJobTerms) -> Result<HackDiff, String> {
    match job {
        HrmJob::Modify(_) => terms.modify_quote,
        HrmJob::Repair => terms.repair_quote,
    }
}

/// What winning and losing a job's board does to gun `weapon`.
pub open spec fn job_outcomes_hold(job: HrmJob, weapon: EntityId, terms: WeaponJobTerms, success: Effect, critical: Effect) -> bool {
    let level: i32 = match terms.modification_level {
        Some(l) => l,
        None => -1i32,
    };
    if job is Repair {
        combines(
            success,
            seq![
                Effect::SetObjectState { entity_id: weapon, state: ObjectState::Normal },
                Effect::AdjustWeaponCondition { entity_id: weapon, delta_points: REPAIR_CONDITION_BONUS },
            ],
        ) && critical == (Effect::DestroyEntity { entity_id: weapon })
    } else {
        combines(
            success,
            seq![
                Effect::ShowMessage { text: terms.modify_won_text },
                Effect::ModifyWeapon { entity_id: weapon, expected_level: level },
            ],
        ) && combines(
            critical,
            seq![
                Effect::ShowMessage { text: terms.modify_lost_text },
                Effect::SetObjectState { entity_id: weapon, state: ObjectState::Broken },
            ],
        )
    }
}

/// Condition points a won repair gives back, on top of working order.
pub const REPAIR_CONDITION_BONUS: i32 = 10;

/// A won repair: the gun works again, ten condition points better off.
pub fn repair_success(weapon: EntityId) -> (e: Effect)
    ensures
        combines(e, seq![
            Effect::SetObjectState { entity_id: weapon, state: ObjectState::Normal },
            Effect::AdjustWeaponCondition { entity_id: weapon, delta_points: REPAIR_CONDITION_BONUS },
        ]),
{
    combine_two(
        Effect::SetObjectState { entity_id: weapon, state: ObjectState::Normal },
        Effect::AdjustWeaponCondition { entity_id: weapon, delta_points: REPAIR_CONDITION_BONUS },
    )
}

/// A lost repair destroys the gun, at the moment it fails.
pub fn repair_critical_failure(weapon: EntityId) -> (e: Effect)
    ensures
        e == (Effect::DestroyEntity { entity_id: weapon }),
{
    Effect::DestroyEntity { entity_id: weapon }
}

/// The weapon settings panel: fire settings, unload, and the modify and
/// repair boards of the wielded gun.
pub struct WeaponSettingsGui;

impl WeaponSettingsGui {
    /// The settings panel's answer to a message about gun `weapon` (or about no
    /// gun, once none is wielded: then nothing happens).
    ///
    /// MODIFY and REPAIR deal a fresh board on the job's quote, or show why
    /// there is none. Board input is ignored without a board or once it is won or
    /// lost; when the gun's modification level has moved under a modify board, or
    /// the job no longer has a quote, the board is dropped with a message;
    /// otherwise the input is played on the current quote, and a won or lost
    /// board does what [`job_outcomes_hold`] says. Setting and unload buttons
    /// ask the mission to act on the gun.
    pub fn handle_msg(
        &self,
        weapon: Option<EntityId>,
        state: &WeaponSettingsGuiState,
        msg: &WeaponSettingsGuiMsg,
        terms: WeaponJobTerms,
        chance: i32,
        mine_count: i32,
        payment: Option<Effect>,
        seed: u64,
    ) -> (r: (WeaponSettingsGuiState, Effect))
        ensures
            weapon is None ==> r.0 == *state && r.1 is NoEffect,
            weapon matches Some(gun) ==> match *msg {
                WeaponSettingsGuiMsg::Modify | WeaponSettingsGuiMsg::Repair => {
                    let job = if *msg == WeaponSettingsGuiMsg::Repair {
                        HrmJob::Repair
                    } else {
                        HrmJob::Modify(
                            match terms.modification_level {
                                Some(l) => l,
                                None => -1i32,
                            },
                        )
                    };
                    match job_quote(job, terms) {
                        Ok(diff) => match r.0.board {
                            Some(b) => b.0 == job && b.1 == diff && b.2.phase == HackPhase::Unpaid
                                && b.2.nodes@ == hack_shape() && b.2.rng_state == 0 && r.1 is NoEffect,
                            None => false,
                        },
                        Err(text) => r.0 == *state && r.1 == (Effect::ShowMessage { text }),
                    }
                },
                WeaponSettingsGuiMsg::Board(m) => match state.board {
                    None => r.0 == *state && r.1 is NoEffect,
                    Some((job, _, board)) => if board.phase is Won || board.phase is Lost {
                        r.0 == *state && r.1 is NoEffect
                    } else if (job matches HrmJob::Modify(level) && terms.modification_level != Some(level))
                        || job_quote(job, terms) is Err {
                        &&& r.0.board is None
                        &&& match r.1 {
                            Effect::ShowMessage { text } => text@ == match job_quote(job, terms) {
                                Err(t) => t@,
                                Ok(_) => "Weapon modification changed."@,
                            },
                            _ => false,
                        }
                    } else {
                        exists|success: Effect, critical: Effect|
                            {
                                &&& job_outcomes_hold(job, gun, terms, success, critical)
                                &&& match r.0.board {
                                    Some(nb) => {
                                        &&& nb.0 == job
                                        &&& job_quote(job, terms) == Ok::<HackDiff, String>(nb.1)
                                        &&& board_step_holds(
                                            gun,
                                            board,
                                            m,
                                            job_context(job),
                                            chance,
                                            mine_count,
                                            payment,
                                            seed,
                                            success,
                                            critical,
                                            (nb.2, r.1),
                                        )
                                    },
                                    None => false,
                                }
                            }
                    },
                },
                WeaponSettingsGuiMsg::SelectSetting(setting) => r.0 == *state && r.1 == (Effect::SetGunSetting {
                    entity_id: gun,
                    setting,
                }),
                WeaponSettingsGuiMsg::Unload => r.0 == *state && r.1 == (Effect::UnloadWeapon { entity_id: gun }),
            },
    {
        let Some(gun) = weapon else {
            return (*state, Effect::NoEffect);
        };
        let WeaponJobTerms { modification_level, modify_quote, repair_quote, modify_won_text, modify_lost_text } = terms;
        match msg {
            WeaponSettingsGuiMsg::Modify | WeaponSettingsGuiMsg::Repair => {
                let job = if matches!(msg, WeaponSettingsGuiMsg::Repair) {
                    HrmJob::Repair
                } else {
                    HrmJob::Modify(
                        match modification_level {
                            Some(l) => l,
                            None => -1,
                        },
                    )
                };
                let quote = match job {
                    HrmJob::Modify(_) => modify_quote,
                    HrmJob::Repair => repair_quote,
                };
                match quote {
                    Ok(diff) => (WeaponSettingsGuiState { board: Some((job, diff, HackState::default())) }, Effect::NoEffect),
                    Err(text) => (*state, Effect::ShowMessage { text }),
                }
            },
            WeaponSettingsGuiMsg::Board(m) => {
                let Some((job, _, board)) = state.board else {
                    return (*state, Effect::NoEffect);
                };
                if matches!(board.phase, HackPhase::Won | HackPhase::Lost) {
                    return (*state, Effect::NoEffect);
                }
                let quote = match job {
                    HrmJob::Modify(_) => modify_quote,
                    HrmJob::Repair => repair_quote,
                };
                let level_changed = match job {
                    HrmJob::Modify(level) => match modification_level {
                        Some(l) => l != level,
                        None => true,
                    },
                    HrmJob::Repair => false,
                };
                let diff = match quote {
                    Err(text) => {
                        return (WeaponSettingsGuiState { board: None }, Effect::ShowMessage { text });
                    },
                    Ok(diff) => diff,
                };
                if level_changed {
                    return (
                        WeaponSettingsGuiState { board: None },
                        Effect::ShowMessage { text: String::from_str("Weapon modification changed.") },
                    );
                }
                let expected_level: i32 = match modification_level {
                    Some(l) => l,
                    None => -1,
                };
                let (success, critical) = match job {
                    HrmJob::Modify(_) => {
                        let won = Effect::ShowMessage { text: modify_won_text };
                        let lost = Effect::ShowMessage { text: modify_lost_text };
                        (
                            combine_two(won, Effect::ModifyWeapon { entity_id: gun, expected_level }),
                            combine_two(lost, Effect::SetObjectState { entity_id: gun, state: ObjectState::Broken }),
                        )
                    },
                    HrmJob::Repair => (repair_success(gun), repair_critical_failure(gun)),
                };
                let ghost gs = success;
                let ghost gc = critical;
                let (next, effect) = handle_hrm_msg(
                    gun,
                    &board,
                    m,
                    job.context(),
                    chance,
                    mine_count,
                    payment,
                    seed,
                    success,
                    critical,
                );
                let result = (WeaponSettingsGuiState { board: Some((job, diff, next)) }, effect);
                assert(job_outcomes_hold(job, gun, terms, gs, gc));
                result
            },
            WeaponSettingsGuiMsg::SelectSetting(setting) => (*state, Effect::SetGunSetting { entity_id: gun, setting: *setting }),
            WeaponSettingsGuiMsg::Unload => (*state, Effect::UnloadWeapon { entity_id: gun }),
        }
    }
}

/// The plug the settings panel raises beside a gun, with its button's
/// message and label: the repair plug for a broken gun that can be repaired,
/// the modify plug for a working gun that can be modified, none otherwise.
pub fn plug_for(broken: bool, repair_supported: bool, modify_supported: bool) -> (r: Option<
    (PlugKind, WeaponSettingsGuiMsg, &'static str),
>)
    ensures
        broken ==> (if repair_supported {
            r matches Some((k, m, l)) && k == PlugKind::Repair && m == WeaponSettingsGuiMsg::Repair && l@ == "repair"@
        } else {
            r is None
        }),
        !broken ==> (if modify_supported {
            r matches Some((k, m, l)) && k == PlugKind::Modify && m == WeaponSettingsGuiMsg::Modify && l@ == "modify"@
        } else {
            r is None
        }),
{
    if broken {
        if repair_supported {
            Some((PlugKind::Repair, WeaponSettingsGuiMsg::Repair, "repair"))
        } else {
            None
        }
    } else if modify_supported {
        Some((PlugKind::Modify, WeaponSettingsGuiMsg::Modify, "modify"))
    } else {
        None
    }
}

/// Whether a gun can ever raise a plug; unlike [`plug_for`] this does not
/// flip with the gun's condition, so the canvas keeps its width while open.
pub fn has_plug_room(repair_supported: bool, modify_supported: bool) -> (r: bool)
    ensures
        r == (repair_supported || modify_supported),
{
    repair_supported || modify_supported
}

/// The settings canvas width: widened for the plug while the gun has room
/// for one.
pub fn settings_canvas_width(plug_room: bool) -> (r: i32)
    ensures
        r == if plug_room {
            PLUG_CANVAS_W
        } else {
            SETTINGS_PANEL_W
        },
{
    if plug_room {
        PLUG_CANVAS_W
    } else {
        SETTINGS_PANEL_W
    }
}

/// The panel's sidecar: the plug's room while the gun has any, with the
/// plug shown only beside the settings (no board open) when a plug applies.
pub fn settings_sidecar(plug_room: bool, board_open: bool, plug_applies: bool) -> (r: Option<PanelSidecar>)
    ensures
        !plug_room ==> r is None,
        plug_room ==> (r matches Some(sc) && sc.body_width == crate::layout::PLUG_BODY_W && (sc.rect is Some <==> (
        !board_open && plug_applies))),
{
    if !plug_room {
        return None;
    }
    Some(plug_sidecar(!board_open && plug_applies))
}

/// Whether the panel offers UNLOAD: never for an energy weapon (it
/// recharges), and otherwise only with rounds loaded that can go back to a
/// clip.
pub fn shows_unload(energy_weapon: bool, ammo: Option<i32>, can_unload: bool) -> (r: bool)
    ensures
        r == (!energy_weapon && (ammo matches Some(a) && a > 0) && can_unload),
{
    if energy_weapon {
        return false;
    }
    let loaded = match ammo {
        Some(a) => a > 0,
        None => false,
    };
    loaded && can_unload
}

/// The terms an open board shows: the ones it was dealt on once it is won or
/// lost, the job's current quote while it is live (the dealt ones when the
/// quote is gone).
pub fn shown_diff(board: &HackState, dealt: HackDiff, quote: &Result<HackDiff, String>) -> (r: HackDiff)
    ensures
        (board.phase is Won || board.phase is Lost) ==> r == dealt,
        !(board.phase is Won || board.phase is Lost) ==> r == match quote {
            Ok(d) => *d,
            Err(_) => dealt,
        },
{
    if matches!(board.phase, HackPhase::Won | HackPhase::Lost) {
        dealt
    } else {
        match quote {
            Ok(d) => *d,
            Err(_) => dealt,
        }
    }
}

/// The art an open board is drawn on: the modify art, or the repair art.
pub fn job_backdrop(job: HrmJob) -> (r: &'static str)
    ensures
        r@ == match job {
            HrmJob::Modify(_) => "modify.pcx"@,
            HrmJob::Repair => "iface/repair.pcx"@,
        },
{
    match job {
        HrmJob::Modify(_) => "modify.pcx",
        HrmJob::Repair => "iface/repair.pcx",
    }
}

} // verus!
