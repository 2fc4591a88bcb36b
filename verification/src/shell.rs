use crate::effect::Effect;
use crate::event::Event;
use crate::mode::{plan_transition, transition};
use crate::model::{AppMode, Platform, WindowSnapshot};
use crate::policy::{close_requested, focus_lost, moved, on_close_requested, on_focus_lost, on_moved};
use crate::router::{menu_click, on_menu_item_clicked, on_tray_clicked, tray_click};
use vstd::prelude::*;

verus! {

/// Why the reaction to an event was given up.
#[derive(Debug, PartialEq, Eq)]
pub enum ModeError {
    /// The host could not carry out a window, tray or process operation.
    PlatformOperationFailed { operation: Effect, cause: String },
    /// The host could not write to one of the two stores.
    PersistenceFailed { cause: String },
}

/// What the host does next.
#[derive(Debug, PartialEq, Eq)]
pub enum Step {
    /// Carry this out, then report how it went.
    Perform(Effect),
    /// The event has been dealt with.
    Done,
    /// The event has been given up; nothing more is to be carried out for it.
    Failed(ModeError),
    /// Another event is still being dealt with: this one was not taken.
    Busy,
}

/// The error that stands for the failure of `effect`: a write to a store is a
/// persistence failure, everything else a failed platform operation.
pub open spec fn failure(effect: Effect, cause: String) -> ModeError {
    match effect {
        Effect::Remember(_) | Effect::StorePreference(_) => ModeError::PersistenceFailed { cause },
        _ => ModeError::PlatformOperationFailed { operation: effect, cause },
    }
}

/// The shell as its guarantees speak of it.
pub struct ShellState {
    pub platform: Platform,
    /// The mode the application is in.
    pub mode: AppMode,
    /// The `is_tray_app` flag as the preference store holds it.
    pub preference: bool,
    /// The snapshot that the window geometry memory holds.
    pub memory: Option<WindowSnapshot>,
    /// The effects of the event being dealt with.
    pub plan: Seq<Effect>,
    /// How many of them have been carried out.
    pub cursor: nat,
}

impl ShellState {
    /// The shell as it starts. The mode is the stored one; where the store
    /// could not be read, or has never been written, it is normal mode.
    pub open spec fn initial(
        platform: Platform,
        stored: Option<bool>,
        remembered: Option<WindowSnapshot>,
    ) -> ShellState {
        let flag = match stored {
            Some(flag) => flag,
            None => false,
        };
        ShellState {
            platform,
            mode: AppMode::of_flag(flag),
            preference: flag,
            memory: remembered,
            plan: Seq::empty(),
            cursor: 0,
        }
    }

    /// No event is being dealt with.
    pub open spec fn idle(self) -> bool {
        self.cursor >= self.plan.len()
    }

    /// Mode and stored preference agree.
    pub open spec fn consistent(self) -> bool {
        self.preference == self.mode.flag()
    }

    /// The effects that `event` calls for in this state.
    pub open spec fn reaction(self, event: Event) -> Seq<Effect> {
        match event {
            Event::ModeRequested { target, live } => transition(
                self.platform,
                self.mode,
                target,
                live,
                self.memory,
            ),
            Event::TrayClicked { visible } => tray_click(self.mode, visible),
            Event::MenuItemClicked { item, live } => menu_click(
                self.platform,
                self.mode,
                self.memory,
                item,
                live,
            ),
            Event::FocusLost { window } => focus_lost(self.platform, self.mode, window),
            Event::CloseRequested => close_requested(),
            Event::Moved { x, y } => moved(x, y),
        }
    }

    /// The state in which `event` has been taken and nothing carried out yet.
    pub open spec fn accept(self, event: Event) -> ShellState {
        ShellState { plan: self.reaction(event), cursor: 0, ..self }
    }

    /// The effect that is to be carried out now.
    pub open spec fn current(self) -> Effect
        recommends
            !self.idle(),
    {
        self.plan[self.cursor as int]
    }

    /// What the shell takes over from an effect that was carried out: a written
    /// snapshot is what the memory holds, and a written preference is the
    /// mode. Nothing else changes mode, preference or memory.
    pub open spec fn settle(self, effect: Effect) -> ShellState {
        match effect {
            Effect::Remember(snapshot) => ShellState { memory: Some(snapshot), ..self },
            Effect::StorePreference(flag) => ShellState {
                preference: flag,
                mode: AppMode::of_flag(flag),
                ..self
            },
            _ => self,
        }
    }

    /// The state after the current effect was carried out.
    pub open spec fn advance(self) -> ShellState
        recommends
            !self.idle(),
    {
        ShellState { cursor: self.cursor + 1, ..self.settle(self.current()) }
    }

    /// The state after the current effect failed: the rest of the plan is dropped.
    pub open spec fn abort(self) -> ShellState {
        ShellState { plan: Seq::empty(), cursor: 0, ..self }
    }

    /// What the host is told in this state.
    pub open spec fn next(self) -> Step {
        if self.idle() {
            Step::Done
        } else {
            Step::Perform(self.current())
        }
    }

    /// The state after the next `count` effects were carried out, or all that
    /// are still open if those are fewer.
    pub open spec fn advanced(self, count: nat) -> ShellState
        decreases count,
    {
        if count == 0 || self.idle() {
            self
        } else {
            self.advance().advanced((count - 1) as nat)
        }
    }

    /// The state after every effect still open was carried out.
    pub open spec fn complete(self) -> ShellState {
        self.advanced(self.plan.len())
    }

    /// What the shell takes over from a run of effects that were carried out.
    pub open spec fn settle_all(self, effects: Seq<Effect>) -> ShellState
        decreases effects.len(),
    {
        if effects.len() == 0 {
            self
        } else {
            self.settle_all(effects.drop_last()).settle(effects.last())
        }
    }
}

/// The owner of the application mode. It takes one event at a time, tells the
/// host which effect to carry out, and moves on when the host reports back.
pub struct Shell {
    platform: Platform,
    mode: AppMode,
    preference: bool,
    memory: Option<WindowSnapshot>,
    plan: Vec<Effect>,
    cursor: usize,
}

impl View for Shell {
    type V = ShellState;

    closed spec fn view(&self) -> ShellState {
        ShellState {
            platform: self.platform,
            mode: self.mode,
            preference: self.preference,
            memory: self.memory,
            plan: self.plan@,
            cursor: self.cursor as nat,
        }
    }
}

/// Names the failure of `effect`.
pub fn classify(effect: Effect, cause: String) -> (error: ModeError)
    ensures
        error == failure(effect, cause),
{
    match effect {
        Effect::Remember(_) | Effect::StorePreference(_) => ModeError::PersistenceFailed { cause },
        _ => ModeError::PlatformOperationFailed { operation: effect, cause },
    }
}

impl Shell {
    /// Starts the shell from what the two stores gave: `stored` is the
    /// preference, absent where it could not be read, and `remembered` the
    /// content of the window geometry memory.
    pub fn startup(platform: Platform, stored: Option<bool>, remembered: Option<WindowSnapshot>) -> (shell:
        Shell)
        ensures
            shell@ == ShellState::initial(platform, stored, remembered),
            shell@.idle(),
            shell@.consistent(),
    {
        let flag = match stored {
            Some(flag) => flag,
            None => false,
        };
        Shell {
            platform,
            mode: AppMode::from_flag(flag),
            preference: flag,
            memory: remembered,
            plan: Vec::new(),
            cursor: 0,
        }
    }

    /// The platform the shell was started on.
    pub fn platform(&self) -> (platform: Platform)
        ensures
            platform == self@.platform,
    {
        self.platform
    }

    /// The mode the application is in.
    pub fn mode(&self) -> (mode: AppMode)
        ensures
            mode == self@.mode,
    {
        self.mode
    }

    /// The preference as the store holds it.
    pub fn preference(&self) -> (flag: bool)
        ensures
            flag == self@.preference,
    {
        self.preference
    }

    /// The snapshot that the window geometry memory holds.
    pub fn memory(&self) -> (memory: Option<WindowSnapshot>)
        ensures
            memory == self@.memory,
    {
        self.memory
    }

    /// Whether no event is being dealt with.
    pub fn is_idle(&self) -> (idle: bool)
        ensures
            idle == self@.idle(),
    {
        self.cursor >= self.plan.len()
    }

    /// What the host is to do now.
    pub fn pending(&self) -> (step: Step)
        ensures
            step == self@.next(),
    {
        if self.cursor < self.plan.len() {
            Step::Perform(self.plan[self.cursor])
        } else {
            Step::Done
        }
    }

    /// The effects that `event` calls for in the present state.
    pub fn react(&self, event: Event) -> (plan: Vec<Effect>)
        ensures
            plan@ == self@.reaction(event),
    {
        match event {
            Event::ModeRequested { target, live } => plan_transition(
                self.platform,
                self.mode,
                target,
                live,
                self.memory,
            ),
            Event::TrayClicked { visible } => on_tray_clicked(self.mode, visible),
            Event::MenuItemClicked { item, live } => on_menu_item_clicked(
                self.platform,
                self.mode,
                self.memory,
                item,
                live,
            ),
            Event::FocusLost { window } => on_focus_lost(self.platform, self.mode, window),
            Event::CloseRequested => on_close_requested(),
            Event::Moved { x, y } => on_moved(x, y),
        }
    }

    /// Takes an event. While another one is being dealt with, the event is
    /// refused and nothing changes. Else its effects become the plan, and the
    /// host is told the first of them, or that there is nothing to do.
    pub fn handle(&mut self, event: Event) -> (step: Step)
        ensures
            !old(self)@.idle() ==> step == Step::Busy && final(self)@ == old(self)@,
            old(self)@.idle() ==> final(self)@ == old(self)@.accept(event),
            old(self)@.idle() ==> step == final(self)@.next(),
            old(self)@.consistent() ==> final(self)@.consistent(),
    {
        if !self.is_idle() {
            return Step::Busy;
        }
        let plan = self.react(event);
        self.plan = plan;
        self.cursor = 0;
        self.pending()
    }

    /// Asks for `target`; `live` is the main window as it stands.
    pub fn set_mode(&mut self, target: AppMode, live: WindowSnapshot) -> (step: Step)
        ensures
            !old(self)@.idle() ==> step == Step::Busy && final(self)@ == old(self)@,
            old(self)@.idle() ==> final(self)@ == old(self)@.accept(
                Event::ModeRequested { target, live },
            ),
            old(self)@.idle() ==> step == final(self)@.next(),
            old(self)@.consistent() ==> final(self)@.consistent(),
    {
        self.handle(Event::ModeRequested { target, live })
    }

    /// Takes the host's report on the effect it was told to carry out: `Ok`, or
    /// `Err` with the cause. After a success the shell takes over what the
    /// effect wrote and tells the next effect, or that the event is dealt with.
    /// After a failure the rest of the plan is dropped, mode, preference and
    /// memory stay as they are, and the failure is named. A report that nothing
    /// asked for changes nothing.
    pub fn report(&mut self, outcome: Result<(), String>) -> (step: Step)
        ensures
            old(self)@.idle() ==> step == Step::Done && final(self)@ == old(self)@,
            !old(self)@.idle() ==> match outcome {
                Ok(_) => final(self)@ == old(self)@.advance() && step == final(self)@.next(),
                Err(cause) => final(self)@ == old(self)@.abort() && step == Step::Failed(
                    failure(old(self)@.current(), cause),
                ),
            },
            old(self)@.consistent() ==> final(self)@.consistent(),
    {
        if self.cursor >= self.plan.len() {
            return Step::Done;
        }
        let effect = self.plan[self.cursor];
        match outcome {
            Ok(_) => {
                match effect {
                    Effect::Remember(snapshot) => {
                        self.memory = Some(snapshot);
                    },
                    Effect::StorePreference(flag) => {
                        self.preference = flag;
                        self.mode = AppMode::from_flag(flag);
                    },
                    _ => {},
                }
                self.cursor = self.cursor + 1;
                self.pending()
            },
            Err(cause) => {
                self.plan = Vec::new();
                self.cursor = 0;
                Step::Failed(classify(effect, cause))
            },
        }
    }
}

} // verus!
