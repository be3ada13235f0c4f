//! The state of a session around the engine: which preset, nutrient pattern
//! and colour table are selected, and the transition from one colour table
//! to the next.
//!
//! Time is counted in milliseconds from a start that the caller chooses. The
//! session never reads a clock: each operation that depends on the time
//! takes the present moment as an argument.

use crate::fraction::Fraction;
use crate::lut_manager::{
    is_registered, load_at, names_distinct, position_of, LutData, LutError, LutManager, LutView,
    LUT_CHANNEL_LEN,
};
use crate::lut_transition::{
    adjacent_index, blend_luts, blended, choose_transition_target, next_index, previous_index,
    target_is_drawn, transition_target,
};
use crate::model_presets::{
    cycle_preset_index, cycled_preset, preset_name, preset_name_text, INITIAL_PRESET, PRESET_COUNT,
};
use crate::nutrient_presets::NutrientPattern;
use vstd::prelude::*;
use vstd::string::StringExecFns;

verus! {

/// How long a transition between two colour tables takes, in milliseconds.
pub const LUT_TRANSITION_MILLIS: u64 = 5000;

/// How long the psychedelic mode rests on a table before it moves on, in
/// milliseconds.
pub const PSYCHEDELIC_PAUSE_MILLIS: u64 = 5000;

/// What a `World` stands for.
pub struct WorldState {
    pub is_left_mouse_button_held_down: bool,
    pub is_right_mouse_button_held_down: bool,
    pub current_preset_index: nat,
    pub current_nutrient_pattern: NutrientPattern,
    pub is_current_nutrient_pattern_reversed: bool,
    pub show_help: bool,
    /// The registered colour tables: names and files.
    pub luts: Seq<(Seq<char>, Seq<u8>)>,
    pub current_lut_index: nat,
    pub is_psychedelic_mode_active: bool,
    pub is_lut_transitioning: bool,
    pub lut_transition_start_time: u64,
    pub lut_transition_duration: u64,
    pub current_lut_data: LutView,
    pub source_lut_for_transition: LutView,
    pub target_lut_for_transition: LutView,
    pub pending_target_lut_index: nat,
    pub psychedelic_pause_duration: u64,
    pub psychedelic_pause_end_time: u64,
    pub is_psychedelic_paused: bool,
}

/// The table that is shown before any table was loaded: all black.
pub open spec fn default_black() -> LutView {
    LutView {
        name: "DefaultBlack"@,
        red: Seq::new(LUT_CHANNEL_LEN as nat, |i: int| 0u8),
        green: Seq::new(LUT_CHANNEL_LEN as nat, |i: int| 0u8),
        blue: Seq::new(LUT_CHANNEL_LEN as nat, |i: int| 0u8),
    }
}

/// The name of the table that a session starts with where it is registered.
pub open spec fn preferred_lut_name() -> Seq<char> {
    "MATPLOTLIB_gist_ncar_r"@
}

/// The position of the table that a session starts with: the preferred
/// table, or the first one where the preferred table is not registered.
pub open spec fn initial_lut_index(luts: Seq<(Seq<char>, Seq<u8>)>) -> nat {
    if is_registered(luts, preferred_lut_name()) {
        position_of(luts, preferred_lut_name()) as nat
    } else {
        0
    }
}

/// The moment `duration` after `now`, or the last moment that can be told
/// where that lies beyond it.
pub open spec fn moment_after(now: u64, duration: u64) -> u64 {
    if now + duration > u64::MAX {
        u64::MAX
    } else {
        (now + duration) as u64
    }
}

/// The time that has gone by at `now` since `start`; none where `now` is
/// before `start`.
pub open spec fn elapsed_since(start: u64, now: u64) -> u64 {
    if now >= start {
        (now - start) as u64
    } else {
        0
    }
}

impl WorldState {
    /// The invariant of a session: the tables have distinct names, the
    /// selected table and the target of a transition are among them, the
    /// selected preset exists, and each table that is held is complete.
    pub open spec fn wf(self) -> bool {
        &&& names_distinct(self.luts)
        &&& self.luts.len() <= usize::MAX
        &&& self.current_preset_index < PRESET_COUNT
        &&& self.luts.len() > 0 ==> self.current_lut_index < self.luts.len()
        &&& self.luts.len() > 0 ==> self.pending_target_lut_index < self.luts.len()
        &&& self.current_lut_data.is_complete()
        &&& self.source_lut_for_transition.is_complete()
        &&& self.target_lut_for_transition.is_complete()
    }

    /// The session as it starts at the moment `now` with the tables `luts`.
    pub open spec fn initial(luts: Seq<(Seq<char>, Seq<u8>)>, now: u64) -> WorldState {
        WorldState {
            is_left_mouse_button_held_down: false,
            is_right_mouse_button_held_down: false,
            current_preset_index: INITIAL_PRESET as nat,
            current_nutrient_pattern: NutrientPattern::RadialGradient,
            is_current_nutrient_pattern_reversed: false,
            show_help: false,
            luts,
            current_lut_index: initial_lut_index(luts),
            is_psychedelic_mode_active: false,
            is_lut_transitioning: false,
            lut_transition_start_time: now,
            lut_transition_duration: LUT_TRANSITION_MILLIS,
            current_lut_data: default_black(),
            source_lut_for_transition: default_black(),
            target_lut_for_transition: default_black(),
            pending_target_lut_index: initial_lut_index(luts),
            psychedelic_pause_duration: PSYCHEDELIC_PAUSE_MILLIS,
            psychedelic_pause_end_time: now,
            is_psychedelic_paused: false,
        }
    }

    /// The session after the table at `index` was selected at once: where
    /// it loads, it is the current table and both ends of the transition;
    /// where it does not load, nothing changes.
    pub open spec fn selected(self, index: int) -> WorldState {
        match load_at(self.luts, index) {
            Ok(data) => WorldState {
                current_lut_data: data,
                source_lut_for_transition: data,
                target_lut_for_transition: data,
                current_lut_index: index as nat,
                pending_target_lut_index: index as nat,
                ..self
            },
            Err(_) => self,
        }
    }

    /// The session after the next or the previous table was selected at
    /// once: the psychedelic mode and any transition end.
    pub open spec fn lut_cycled(self, reverse: bool) -> WorldState {
        let stopped = WorldState {
            is_psychedelic_mode_active: false,
            is_psychedelic_paused: false,
            is_lut_transitioning: false,
            ..self
        };
        if self.luts.len() == 0 {
            stopped
        } else if reverse {
            stopped.selected(previous_index(self.current_lut_index as int, self.luts.len() as int))
        } else {
            stopped.selected(next_index(self.current_lut_index as int, self.luts.len() as int))
        }
    }

    /// Whether the next table, or with `reverse` the previous one, is there
    /// and loads.
    pub open spec fn cycles_to_a_table(self, reverse: bool) -> bool {
        &&& self.luts.len() > 0
        &&& load_at(
            self.luts,
            if reverse {
                previous_index(self.current_lut_index as int, self.luts.len() as int)
            } else {
                next_index(self.current_lut_index as int, self.luts.len() as int)
            },
        ) is Ok
    }

    /// The session with a running transition brought to its end: the target
    /// is the current table.
    pub open spec fn snapped(self) -> WorldState {
        if self.is_lut_transitioning {
            WorldState {
                current_lut_data: self.target_lut_for_transition,
                current_lut_index: self.pending_target_lut_index,
                ..self
            }
        } else {
            self
        }
    }

    /// Whether a transition that starts now may go to the table `target`.
    pub open spec fn may_target(self, go_reverse: bool, target: int) -> bool {
        if self.luts.len() == 0 {
            target == 0
        } else {
            exists|first_draw: int, second_draw: int|
                0 <= first_draw < self.luts.len() && 0 <= second_draw < self.luts.len() && target
                    == #[trigger] transition_target(
                    self.snapped().current_lut_index as int,
                    self.luts.len() as int,
                    go_reverse,
                    self.is_psychedelic_mode_active,
                    first_draw,
                    second_draw,
                )
        }
    }

    /// The session after a transition to the table `target` was started at
    /// the moment `now`. A running transition is brought to its end first,
    /// and a pause of the psychedelic mode ends. Without any tables nothing
    /// more happens. Otherwise the current table is where the transition
    /// starts; where the target loads, the transition runs from `now`, and
    /// where it does not load, no transition runs.
    pub open spec fn initiated_to(self, target: int, now: u64) -> WorldState {
        let base = WorldState { is_psychedelic_paused: false, ..self.snapped() };
        if self.luts.len() == 0 {
            base
        } else {
            let from_current = WorldState {
                source_lut_for_transition: base.current_lut_data,
                ..base
            };
            match load_at(self.luts, target) {
                Ok(data) => WorldState {
                    target_lut_for_transition: data,
                    pending_target_lut_index: target as nat,
                    is_lut_transitioning: true,
                    lut_transition_start_time: now,
                    ..from_current
                },
                Err(_) => WorldState { is_lut_transitioning: false, ..from_current },
            }
        }
    }

    /// How far the running transition has come at the moment `now`.
    pub open spec fn progress(self, now: u64) -> Fraction {
        Fraction::elapsed_part(
            elapsed_since(self.lut_transition_start_time, now),
            self.lut_transition_duration,
        )
    }

    /// The table to show at the moment `now` while a transition runs.
    pub open spec fn shown(self, now: u64) -> LutView {
        blended(self.source_lut_for_transition, self.target_lut_for_transition, self.progress(now))
    }

    /// The session at the moment `now` while a transition runs: where the
    /// transition has come to its end, the target is the current table, and
    /// the psychedelic mode starts its pause.
    pub open spec fn advanced(self, now: u64) -> WorldState {
        if self.progress(now).num >= self.progress(now).den {
            WorldState {
                is_lut_transitioning: false,
                current_lut_data: self.target_lut_for_transition,
                current_lut_index: self.pending_target_lut_index,
                is_psychedelic_paused: self.is_psychedelic_mode_active,
                psychedelic_pause_end_time: if self.is_psychedelic_mode_active {
                    moment_after(now, self.psychedelic_pause_duration)
                } else {
                    self.psychedelic_pause_end_time
                },
                ..self
            }
        } else {
            self
        }
    }

    /// Whether the psychedelic mode has rested long enough at the moment
    /// `now`.
    pub open spec fn pause_is_over(self, now: u64) -> bool {
        &&& !self.is_lut_transitioning
        &&& self.is_psychedelic_mode_active
        &&& self.is_psychedelic_paused
        &&& now >= self.psychedelic_pause_end_time
    }

    /// The session with the psychedelic mode switched on.
    pub open spec fn psychedelic_started(self) -> WorldState {
        WorldState { is_psychedelic_mode_active: true, ..self }
    }

    /// The session after the psychedelic mode was switched off: a running
    /// transition is brought to its end.
    pub open spec fn psychedelic_stopped(self) -> WorldState {
        WorldState {
            is_psychedelic_mode_active: false,
            is_lut_transitioning: false,
            ..self.snapped()
        }
    }

    /// The name of the current table as it is shown.
    pub open spec fn lut_name_text(self, lut_reversed: bool) -> Seq<char> {
        if self.luts.len() == 0 {
            "No LUTs available"@
        } else if lut_reversed {
            self.current_lut_data.name + " (Reversed)"@
        } else {
            self.current_lut_data.name
        }
    }
}

/// The state of a session.
pub struct World {
    is_left_mouse_button_held_down: bool,
    is_right_mouse_button_held_down: bool,
    current_preset_index: usize,
    current_nutrient_pattern: NutrientPattern,
    is_current_nutrient_pattern_reversed: bool,
    show_help: bool,
    lut_manager: LutManager,
    current_lut_index: usize,
    is_psychedelic_mode_active: bool,
    is_lut_transitioning: bool,
    lut_transition_start_time: u64,
    lut_transition_duration: u64,
    current_lut_data: LutData,
    source_lut_for_transition: LutData,
    target_lut_for_transition: LutData,
    pending_target_lut_index: usize,
    psychedelic_pause_duration: u64,
    psychedelic_pause_end_time: u64,
    is_psychedelic_paused: bool,
}

impl View for World {
    type V = WorldState;

    closed spec fn view(&self) -> WorldState {
        WorldState {
            is_left_mouse_button_held_down: self.is_left_mouse_button_held_down,
            is_right_mouse_button_held_down: self.is_right_mouse_button_held_down,
            current_preset_index: self.current_preset_index as nat,
            current_nutrient_pattern: self.current_nutrient_pattern,
            is_current_nutrient_pattern_reversed: self.is_current_nutrient_pattern_reversed,
            show_help: self.show_help,
            luts: self.lut_manager@,
            current_lut_index: self.current_lut_index as nat,
            is_psychedelic_mode_active: self.is_psychedelic_mode_active,
            is_lut_transitioning: self.is_lut_transitioning,
            lut_transition_start_time: self.lut_transition_start_time,
            lut_transition_duration: self.lut_transition_duration,
            current_lut_data: self.current_lut_data@,
            source_lut_for_transition: self.source_lut_for_transition@,
            target_lut_for_transition: self.target_lut_for_transition@,
            pending_target_lut_index: self.pending_target_lut_index as nat,
            psychedelic_pause_duration: self.psychedelic_pause_duration,
            psychedelic_pause_end_time: self.psychedelic_pause_end_time,
            is_psychedelic_paused: self.is_psychedelic_paused,
        }
    }
}

/// A channel of 256 zeros.
fn black_channel() -> (channel: Vec<u8>)
    ensures
        channel@ == Seq::new(LUT_CHANNEL_LEN as nat, |i: int| 0u8),
{
    let mut channel: Vec<u8> = Vec::new();
    let mut i: usize = 0;
    while i < LUT_CHANNEL_LEN
        invariant
            i <= LUT_CHANNEL_LEN,
            channel@ == Seq::new(i as nat, |k: int| 0u8),
        decreases LUT_CHANNEL_LEN - i,
    {
        channel.push(0);
        i = i + 1;
    }
    channel
}

/// The table that is shown before any table was loaded.
pub fn default_black_lut() -> (lut: LutData)
    ensures
        lut@ == default_black(),
        lut@.is_complete(),
{
    LutData {
        name: String::from_str("DefaultBlack"),
        red: black_channel(),
        green: black_channel(),
        blue: black_channel(),
    }
}

impl World {
    /// A session that starts at the moment `now` with the tables of
    /// `lut_manager`: the preset "Undulating", the radial nutrient pattern,
    /// no transition, and the all-black table until a table is loaded.
    pub fn new(lut_manager: LutManager, now: u64) -> (world: Self)
        requires
            lut_manager.wf(),
        ensures
            world@ == WorldState::initial(lut_manager@, now),
            world@.wf(),
    {
        let available = lut_manager.len();
        let current_lut_index = match lut_manager.position("MATPLOTLIB_gist_ncar_r") {
            Some(index) => index,
            None => 0,
        };
        assert(available > 0 ==> current_lut_index < available);
        World {
            is_left_mouse_button_held_down: false,
            is_right_mouse_button_held_down: false,
            current_preset_index: INITIAL_PRESET,
            current_nutrient_pattern: NutrientPattern::RadialGradient,
            is_current_nutrient_pattern_reversed: false,
            show_help: false,
            lut_manager,
            current_lut_index,
            is_psychedelic_mode_active: false,
            is_lut_transitioning: false,
            lut_transition_start_time: now,
            lut_transition_duration: LUT_TRANSITION_MILLIS,
            current_lut_data: default_black_lut(),
            source_lut_for_transition: default_black_lut(),
            target_lut_for_transition: default_black_lut(),
            pending_target_lut_index: current_lut_index,
            psychedelic_pause_duration: PSYCHEDELIC_PAUSE_MILLIS,
            psychedelic_pause_end_time: now,
            is_psychedelic_paused: false,
        }
    }

    /// Selects the table at `index` at once, if it loads, and returns it
    /// for display.
    fn select_lut(&mut self, index: usize) -> (shown: Option<LutData>)
        requires
            old(self)@.wf(),
            index < old(self)@.luts.len(),
        ensures
            final(self)@.wf(),
            final(self)@ == old(self)@.selected(index as int),
            match shown {
                Some(lut) => load_at(old(self)@.luts, index as int) == Ok::<LutView, LutError>(
                    lut@,
                ),
                None => load_at(old(self)@.luts, index as int) is Err,
            },
    {
        match self.lut_manager.load_lut_at(index) {
            Ok(lut_data) => {
                self.current_lut_data = lut_data.clone();
                self.source_lut_for_transition = lut_data.clone();
                self.target_lut_for_transition = lut_data.clone();
                self.current_lut_index = index;
                self.pending_target_lut_index = index;
                Some(lut_data)
            },
            Err(_) => None,
        }
    }

    /// Loads the table that the session starts with and returns it for
    /// display; `None` where there is no table or it does not load.
    pub fn load_initial_lut(&mut self) -> (shown: Option<LutData>)
        requires
            old(self)@.wf(),
        ensures
            final(self)@.wf(),
            final(self)@ == if old(self)@.luts.len() == 0 {
                old(self)@
            } else {
                old(self)@.selected(old(self)@.current_lut_index as int)
            },
            match shown {
                Some(lut) => old(self)@.luts.len() > 0 && load_at(
                    old(self)@.luts,
                    old(self)@.current_lut_index as int,
                ) == Ok::<LutView, LutError>(lut@),
                None => old(self)@.luts.len() == 0 || load_at(
                    old(self)@.luts,
                    old(self)@.current_lut_index as int,
                ) is Err,
            },
    {
        if self.lut_manager.len() == 0 {
            None
        } else {
            self.select_lut(self.current_lut_index)
        }
    }

    /// Selects the next table at once, or with `reverse` the previous one,
    /// and returns it for display. The psychedelic mode and any transition
    /// end.
    pub fn cycle_lut(&mut self, reverse: bool) -> (shown: Option<LutData>)
        requires
            old(self)@.wf(),
        ensures
            final(self)@.wf(),
            final(self)@ == old(self)@.lut_cycled(reverse),
            shown is Some <==> old(self)@.cycles_to_a_table(reverse),
            shown matches Some(lut) ==> lut@ == final(self)@.current_lut_data,
    {
        self.is_psychedelic_mode_active = false;
        self.is_psychedelic_paused = false;
        self.is_lut_transitioning = false;
        let len = self.lut_manager.len();
        if len == 0 {
            None
        } else {
            let new_lut_index = adjacent_index(self.current_lut_index, len, reverse);
            self.select_lut(new_lut_index)
        }
    }

    /// Starts a transition to another table at the moment `now`: backwards
    /// to the previous table, forwards to the next one or, in the
    /// psychedelic mode, to one drawn at random.
    pub fn initiate_lut_transition(&mut self, go_reverse: bool, now: u64)
        requires
            old(self)@.wf(),
        ensures
            final(self)@.wf(),
            exists|target: int| #[trigger]
                old(self)@.may_target(go_reverse, target) && final(self)@ == old(self)@.initiated_to(target, now),
            old(self)@.luts.len() > 0 && !target_is_drawn(
                old(self)@.luts.len() as int,
                go_reverse,
                old(self)@.is_psychedelic_mode_active,
            ) ==> final(self)@ == old(self)@.initiated_to(
                transition_target(
                    old(self)@.snapped().current_lut_index as int,
                    old(self)@.luts.len() as int,
                    go_reverse,
                    old(self)@.is_psychedelic_mode_active,
                    0,
                    0,
                ),
                now,
            ),
    {
        if self.is_lut_transitioning {
            self.current_lut_data = self.target_lut_for_transition.clone();
            self.current_lut_index = self.pending_target_lut_index;
        }
        self.is_psychedelic_paused = false;
        let len = self.lut_manager.len();
        if len == 0 {
            assert(old(self)@.may_target(go_reverse, 0));
            assert(self@ == old(self)@.initiated_to(0, now));
            return ;
        }
        self.source_lut_for_transition = self.current_lut_data.clone();
        let new_target_lut_index = choose_transition_target(
            self.current_lut_index,
            len,
            go_reverse,
            self.is_psychedelic_mode_active,
        );
        match self.lut_manager.load_lut_at(new_target_lut_index) {
            Ok(target_data) => {
                self.target_lut_for_transition = target_data;
                self.pending_target_lut_index = new_target_lut_index;
                self.is_lut_transitioning = true;
                self.lut_transition_start_time = now;
            },
            Err(_) => {
                self.is_lut_transitioning = false;
            },
        }
        assert(old(self)@.may_target(go_reverse, new_target_lut_index as int));
        assert(self@ == old(self)@.initiated_to(new_target_lut_index as int, now));
    }

    /// Brings the session to the moment `now`. While a transition runs, the
    /// table to show at that moment is returned, and the transition ends
    /// once its time is up. Without a transition, the psychedelic mode
    /// starts the next one when its pause is over.
    pub fn update_lut_transition(&mut self, now: u64) -> (shown: Option<LutData>)
        requires
            old(self)@.wf(),
        ensures
            final(self)@.wf(),
            old(self)@.is_lut_transitioning ==> final(self)@ == old(self)@.advanced(now) && (
            shown matches Some(lut) && lut@ == old(self)@.shown(now)),
            old(self)@.pause_is_over(now) ==> shown is None && exists|target: int| #[trigger]
                old(self)@.may_target(false, target) && final(self)@ == old(self)@.initiated_to(
                    target,
                    now,
                ),
            !old(self)@.is_lut_transitioning && !old(self)@.pause_is_over(now) ==> shown is None
                && final(self)@ == old(self)@,
    {
        if self.is_lut_transitioning {
            let elapsed = now.saturating_sub(self.lut_transition_start_time);
            let progress = Fraction::of_elapsed(elapsed, self.lut_transition_duration);
            let interpolated_lut = blend_luts(
                &self.source_lut_for_transition,
                &self.target_lut_for_transition,
                progress,
            );
            if progress.is_complete() {
                self.is_lut_transitioning = false;
                self.current_lut_data = self.target_lut_for_transition.clone();
                self.current_lut_index = self.pending_target_lut_index;
                if self.is_psychedelic_mode_active {
                    self.is_psychedelic_paused = true;
                    self.psychedelic_pause_end_time = now.saturating_add(
                        self.psychedelic_pause_duration,
                    );
                } else {
                    self.is_psychedelic_paused = false;
                }
            }
            Some(interpolated_lut)
        } else if self.is_psychedelic_mode_active && self.is_psychedelic_paused && now
            >= self.psychedelic_pause_end_time {
            self.initiate_lut_transition(false, now);
            None
        } else {
            None
        }
    }

    /// Switches the psychedelic mode on or off at the moment `now`. Switched
    /// on, it starts a transition unless one runs already. Switched off, it
    /// brings a running transition to its end and returns the table to
    /// show.
    pub fn toggle_psychedelic_mode(&mut self, now: u64) -> (shown: Option<LutData>)
        requires
            old(self)@.wf(),
        ensures
            final(self)@.wf(),
            old(self)@.is_psychedelic_mode_active ==> final(self)@ == old(
                self)@.psychedelic_stopped() && (shown matches Some(lut) ==> lut@ == old(
                self)@.target_lut_for_transition) && (shown is Some <==> old(
                self)@.is_lut_transitioning),
            !old(self)@.is_psychedelic_mode_active ==> shown is None,
            !old(self)@.is_psychedelic_mode_active && old(self)@.is_lut_transitioning ==> final(
                self)@ == old(self)@.psychedelic_started(),
            !old(self)@.is_psychedelic_mode_active && !old(self)@.is_lut_transitioning
                ==> exists|target: int| #[trigger]
                old(self)@.psychedelic_started().may_target(false, target) && final(self)@
                    == old(self)@.psychedelic_started().initiated_to(target, now),
    {
        self.is_psychedelic_mode_active = !self.is_psychedelic_mode_active;
        if self.is_psychedelic_mode_active {
            if !self.is_lut_transitioning {
                self.initiate_lut_transition(false, now);
            }
            None
        } else if self.is_lut_transitioning {
            self.current_lut_data = self.target_lut_for_transition.clone();
            self.current_lut_index = self.pending_target_lut_index;
            self.is_lut_transitioning = false;
            Some(self.current_lut_data.clone())
        } else {
            None
        }
    }

    /// Selects the next preset, or with `reverse` the previous one, and
    /// returns its number.
    pub fn cycle_preset(&mut self, reverse: bool) -> (index: usize)
        requires
            old(self)@.wf(),
        ensures
            final(self)@.wf(),
            index == cycled_preset(old(self)@.current_preset_index as int, reverse),
            final(self)@ == (WorldState { current_preset_index: index as nat, ..old(self)@ }),
    {
        self.current_preset_index = cycle_preset_index(self.current_preset_index, reverse);
        self.current_preset_index
    }

    /// Selects the next nutrient pattern, or with `reverse` the previous
    /// one, and returns what the engine is to be told: the number of the
    /// pattern and whether it is reversed.
    pub fn cycle_nutrient_pattern(&mut self, reverse: bool) -> (selection: (u32, bool))
        ensures
            final(self)@ == (WorldState {
                current_nutrient_pattern: old(self)@.current_nutrient_pattern.cycled(reverse),
                ..old(self)@
            }),
            selection == (
                old(self)@.current_nutrient_pattern.cycled(reverse).number(),
                old(self)@.is_current_nutrient_pattern_reversed,
            ),
    {
        self.current_nutrient_pattern = self.current_nutrient_pattern.cycle(reverse);
        (self.current_nutrient_pattern.as_u32(), self.is_current_nutrient_pattern_reversed)
    }

    /// Reverses the nutrient pattern, or restores it, and returns whether
    /// it is reversed now.
    pub fn toggle_nutrient_pattern_reversal(&mut self) -> (reversed: bool)
        ensures
            reversed == !old(self)@.is_current_nutrient_pattern_reversed,
            final(self)@ == (WorldState {
                is_current_nutrient_pattern_reversed: reversed,
                ..old(self)@
            }),
    {
        self.is_current_nutrient_pattern_reversed = !self.is_current_nutrient_pattern_reversed;
        self.is_current_nutrient_pattern_reversed
    }

    /// Shows or hides the help, and returns whether it is shown now.
    pub fn toggle_help(&mut self) -> (shown: bool)
        ensures
            shown == !old(self)@.show_help,
            final(self)@ == (WorldState { show_help: shown, ..old(self)@ }),
    {
        self.show_help = !self.show_help;
        self.show_help
    }

    /// Records whether the left and the right mouse button are held down.
    pub fn set_mouse_buttons(&mut self, left: bool, right: bool)
        ensures
            final(self)@ == (WorldState {
                is_left_mouse_button_held_down: left,
                is_right_mouse_button_held_down: right,
                ..old(self)@
            }),
    {
        self.is_left_mouse_button_held_down = left;
        self.is_right_mouse_button_held_down = right;
    }

    /// Whether the left and the right mouse button are held down.
    pub fn mouse_buttons(&self) -> (held: (bool, bool))
        ensures
            held == (
                self@.is_left_mouse_button_held_down,
                self@.is_right_mouse_button_held_down,
            ),
    {
        (self.is_left_mouse_button_held_down, self.is_right_mouse_button_held_down)
    }

    /// The name of the current table as it is shown, with a mark where the
    /// display reverses the table.
    pub fn get_current_lut_name(&self, lut_reversed: bool) -> (name: String)
        ensures
            name@ == self@.lut_name_text(lut_reversed),
    {
        if self.lut_manager.len() == 0 {
            String::from_str("No LUTs available")
        } else {
            let name = self.current_lut_data.name.clone();
            if lut_reversed {
                name.concat(" (Reversed)")
            } else {
                name
            }
        }
    }

    /// The name of the current preset.
    pub fn get_current_preset_name(&self) -> (name: &'static str)
        requires
            self@.wf(),
        ensures
            name@ == preset_name_text(self@.current_preset_index as int),
    {
        preset_name(self.current_preset_index)
    }

    /// The name of the current nutrient pattern.
    pub fn get_current_nutrient_pattern_name(&self) -> (name: &'static str)
        ensures
            name@ == self@.current_nutrient_pattern.name_text(),
    {
        self.current_nutrient_pattern.name()
    }

    /// The number of the current preset.
    pub fn current_preset_index(&self) -> (index: usize)
        ensures
            index == self@.current_preset_index,
    {
        self.current_preset_index
    }

    /// The current nutrient pattern and whether it is reversed.
    pub fn current_nutrient_pattern(&self) -> (pattern: (NutrientPattern, bool))
        ensures
            pattern == (
                self@.current_nutrient_pattern,
                self@.is_current_nutrient_pattern_reversed,
            ),
    {
        (self.current_nutrient_pattern, self.is_current_nutrient_pattern_reversed)
    }

    /// Whether the help is shown.
    pub fn show_help(&self) -> (shown: bool)
        ensures
            shown == self@.show_help,
    {
        self.show_help
    }

    /// The position of the current table among the registered tables.
    pub fn current_lut_index(&self) -> (index: usize)
        ensures
            index == self@.current_lut_index,
    {
        self.current_lut_index
    }

    /// The current table.
    pub fn current_lut_data(&self) -> (lut: &LutData)
        ensures
            lut@ == self@.current_lut_data,
    {
        &self.current_lut_data
    }

    /// Whether a transition runs.
    pub fn is_lut_transitioning(&self) -> (running: bool)
        ensures
            running == self@.is_lut_transitioning,
    {
        self.is_lut_transitioning
    }

    /// Whether the psychedelic mode is on.
    pub fn is_psychedelic_mode_active(&self) -> (active: bool)
        ensures
            active == self@.is_psychedelic_mode_active,
    {
        self.is_psychedelic_mode_active
    }

    /// The registry of colour tables.
    pub fn lut_manager(&self) -> (manager: &LutManager)
        ensures
            manager@ == self@.luts,
    {
        &self.lut_manager
    }
}

/// A transition that has not started shows the source's channels, and one
/// whose time is up shows the target.
pub proof fn lemma_shown_at_the_ends(state: WorldState, now: u64)
    requires
        state.wf(),
    ensures
        state.lut_transition_duration > 0 && now <= state.lut_transition_start_time
            ==> state.shown(now) == (LutView {
            name: state.target_lut_for_transition.name,
            ..state.source_lut_for_transition
        }),
        elapsed_since(state.lut_transition_start_time, now) >= state.lut_transition_duration
            ==> state.shown(now) == state.target_lut_for_transition,
{
    crate::lut_transition::lemma_blended_at_the_ends(
        state.source_lut_for_transition,
        state.target_lut_for_transition,
        state.progress(now),
    );
}

} // verus!
