//! What an action unfolds into: the writes that press its controls at once,
//! and for each of them the write that releases it once the action's
//! duration has passed. Releases are independent of each other: two actions
//! on one control each release it at their own deadline.

use vstd::prelude::*;
use vstd::string::*;
use crate::input::{
    bool_write, int_write, look_path, look_write, lowercase_of, move_path, move_write,
    parse_look_direction, parse_move_direction, parsed_look, parsed_move, run_path, run_write,
    str_to_lowercase, InputError, LookDirection, MoveDirection,
};
use crate::osc::{Message, MessageView};

verus! {

/// How many actions may wait to be taken up.
pub const QUEUE_CAPACITY: usize = 64;

/// A request to hold some controls for a while.
#[derive(Debug, Clone, PartialEq, Eq)]
pub struct Action {
    /// How long the controls are held, in seconds.
    pub duration: u64,
    /// The direction to move in (Forward, Backward, Left, Right), in any casing.
    pub movement: Option<String>,
    /// The direction to look in (Left, Right), in any casing.
    pub look: Option<String>,
    /// Present: run for the duration.
    pub run: Option<bool>,
    /// Present: jump once.
    pub jump: Option<bool>,
}

pub struct ActionView {
    pub duration: u64,
    pub movement: Option<Seq<char>>,
    pub look: Option<Seq<char>>,
    pub run: Option<bool>,
    pub jump: Option<bool>,
}

impl View for Action {
    type V = ActionView;

    open spec fn view(&self) -> ActionView {
        ActionView {
            duration: self.duration,
            movement: match self.movement {
                Some(w) => Some(w@),
                None => None,
            },
            look: match self.look {
                Some(w) => Some(w@),
                None => None,
            },
            run: self.run,
            jump: self.jump,
        }
    }
}

/// A write that is due some seconds after the action was taken up.
#[derive(Debug, Clone, PartialEq, Eq)]
pub struct Release {
    pub delay_secs: u64,
    pub write: Message,
}

pub struct ReleaseView {
    pub delay_secs: u64,
    pub write: MessageView,
}

impl View for Release {
    type V = ReleaseView;

    open spec fn view(&self) -> ReleaseView {
        ReleaseView { delay_secs: self.delay_secs, write: self.write@ }
    }
}

/// What the dispatcher does with one action.
#[derive(Debug, Clone, PartialEq, Eq)]
pub struct Plan {
    /// The writes to send at once, in order.
    pub presses: Vec<Message>,
    /// The writes to send later, each on a timer of its own.
    pub releases: Vec<Release>,
    /// Whether a jump is to be pulsed, off the path of the other writes.
    pub jump: bool,
}

pub struct PlanView {
    pub presses: Seq<MessageView>,
    pub releases: Seq<ReleaseView>,
    pub jump: bool,
}

impl View for Plan {
    type V = PlanView;

    open spec fn view(&self) -> PlanView {
        PlanView {
            presses: Seq::new(self.presses@.len(), |i: int| self.presses@[i]@),
            releases: Seq::new(self.releases@.len(), |i: int| self.releases@[i]@),
            jump: self.jump,
        }
    }
}

/// The view of a plan that may have been refused.
pub open spec fn plan_view(r: Result<Plan, InputError>) -> Result<PlanView, InputError> {
    match r {
        Ok(p) => Ok(p@),
        Err(e) => Err(e),
    }
}

/// The release of a control after `duration` seconds.
pub open spec fn release_after(duration: u64, write: MessageView) -> ReleaseView {
    ReleaseView { delay_secs: duration, write }
}

/// The press of each control that the action names: movement, look, run.
pub open spec fn presses_of(
    movement: Option<MoveDirection>,
    look: Option<LookDirection>,
    run: bool,
) -> Seq<MessageView> {
    (match movement {
        Some(d) => seq![bool_write(move_path(d), true)],
        None => Seq::<MessageView>::empty(),
    }) + (match look {
        Some(d) => seq![bool_write(look_path(d), true)],
        None => Seq::<MessageView>::empty(),
    }) + (if run {
        seq![int_write(run_path(), 1)]
    } else {
        Seq::<MessageView>::empty()
    })
}

/// The release of each control that the action names, in the order of the
/// presses, each after the action's duration.
pub open spec fn releases_of(
    duration: u64,
    movement: Option<MoveDirection>,
    look: Option<LookDirection>,
    run: bool,
) -> Seq<ReleaseView> {
    (match movement {
        Some(d) => seq![release_after(duration, bool_write(move_path(d), false))],
        None => Seq::<ReleaseView>::empty(),
    }) + (match look {
        Some(d) => seq![release_after(duration, bool_write(look_path(d), false))],
        None => Seq::<ReleaseView>::empty(),
    }) + (if run {
        seq![release_after(duration, int_write(run_path(), 0))]
    } else {
        Seq::<ReleaseView>::empty()
    })
}

/// The plan for an action whose directions have been read.
pub open spec fn plan_for(
    duration: u64,
    movement: Option<MoveDirection>,
    look: Option<LookDirection>,
    run: bool,
    jump: bool,
) -> PlanView {
    PlanView {
        presses: presses_of(movement, look, run),
        releases: releases_of(duration, movement, look, run),
        jump,
    }
}

/// The movement that an action asks for, if it names one that exists.
pub open spec fn movement_of(a: ActionView) -> Result<Option<MoveDirection>, InputError> {
    match a.movement {
        None => Ok(None),
        Some(w) => match parsed_move(w) {
            Ok(d) => Ok(Some(d)),
            Err(e) => Err(e),
        },
    }
}

/// The look that an action asks for, if it names one that exists.
pub open spec fn look_of(a: ActionView) -> Result<Option<LookDirection>, InputError> {
    match a.look {
        None => Ok(None),
        Some(w) => match parsed_look(w) {
            Ok(d) => Ok(Some(d)),
            Err(e) => Err(e),
        },
    }
}

/// The plan of an action. An action that names an unknown direction is
/// refused whole, the movement being read first; run and jump count by
/// their presence.
pub open spec fn plan_of(a: ActionView) -> Result<PlanView, InputError> {
    match movement_of(a) {
        Err(e) => Err(e),
        Ok(movement) => match look_of(a) {
            Err(e) => Err(e),
            Ok(look) => Ok(plan_for(a.duration, movement, look, a.run is Some, a.jump is Some)),
        },
    }
}

/// Builds the plan for an action whose directions have been read.
pub fn plan(
    duration: u64,
    movement: Option<MoveDirection>,
    look: Option<LookDirection>,
    run: bool,
    jump: bool,
) -> (p: Plan)
    ensures
        p@ == plan_for(duration, movement, look, run, jump),
{
    let mut presses: Vec<Message> = Vec::new();
    let mut releases: Vec<Release> = Vec::new();
    match movement {
        Some(d) => {
            presses.push(move_write(d, true));
            releases.push(Release { delay_secs: duration, write: move_write(d, false) });
        },
        None => {},
    }
    match look {
        Some(d) => {
            presses.push(look_write(d, true));
            releases.push(Release { delay_secs: duration, write: look_write(d, false) });
        },
        None => {},
    }
    if run {
        presses.push(run_write(1));
        releases.push(Release { delay_secs: duration, write: run_write(0) });
    }
    let p = Plan { presses, releases, jump };
    proof {
        assert(p@.presses =~= presses_of(movement, look, run));
        assert(p@.releases =~= releases_of(duration, movement, look, run));
    }
    p
}

/// Takes up one action: reads its directions and plans its writes.
pub fn dispatch(action: &Action) -> (r: Result<Plan, InputError>)
    ensures
        plan_view(r) == plan_of(action@),
{
    let movement = match &action.movement {
        None => None,
        Some(w) => match parse_move_direction(w.as_str()) {
            Ok(d) => Some(d),
            Err(e) => {
                return Err(e);
            },
        },
    };
    let look = match &action.look {
        None => None,
        Some(w) => match parse_look_direction(w.as_str()) {
            Ok(d) => Some(d),
            Err(e) => {
                return Err(e);
            },
        },
    };
    Ok(plan(action.duration, movement, look, action.run.is_some(), action.jump.is_some()))
}

/// The label of what an action asks for: the movement and the look in lower
/// case, then `jump` and `run` where they are present, with nothing between.
pub open spec fn action_type_text(a: ActionView) -> Seq<char> {
    (match a.movement {
        Some(w) => lowercase_of(w),
        None => Seq::<char>::empty(),
    }) + (match a.look {
        Some(w) => lowercase_of(w),
        None => Seq::<char>::empty(),
    }) + (if a.jump is Some {
        "jump"@
    } else {
        Seq::<char>::empty()
    }) + (if a.run is Some {
        "run"@
    } else {
        Seq::<char>::empty()
    })
}

/// Labels an action for the report to its caller.
pub fn action_type(action: &Action) -> (r: String)
    ensures
        r@ == action_type_text(action@),
{
    let mut out = String::new();
    match &action.movement {
        Some(w) => {
            out.append(str_to_lowercase(w.as_str()).as_str());
        },
        None => {},
    }
    match &action.look {
        Some(w) => {
            out.append(str_to_lowercase(w.as_str()).as_str());
        },
        None => {},
    }
    if action.jump.is_some() {
        out.append("jump");
    }
    if action.run.is_some() {
        out.append("run");
    }
    assert(out@ =~= action_type_text(action@));
    out
}

/// An action that moves forward is planned with the forward button pressed
/// first, and with that button's release first among the releases, due when
/// the action's duration has passed.
pub proof fn forward_is_pressed_then_released(a: ActionView)
    requires
        movement_of(a) == Ok::<Option<MoveDirection>, InputError>(Some(MoveDirection::Forward)),
        look_of(a) is Ok,
    ensures
        plan_of(a) is Ok,
        plan_of(a)->Ok_0.presses[0] == bool_write("/input/MoveForward"@, true),
        plan_of(a)->Ok_0.releases[0] == release_after(
            a.duration,
            bool_write("/input/MoveForward"@, false),
        ),
{
}

/// An action that names no control is planned with no write at all.
pub proof fn empty_action_is_no_write(a: ActionView)
    requires
        a.movement is None,
        a.look is None,
        a.run is None,
        a.jump is None,
    ensures
        plan_of(a) == Ok::<PlanView, InputError>(
            PlanView { presses: Seq::empty(), releases: Seq::empty(), jump: false },
        ),
{
    let p = plan_of(a)->Ok_0;
    assert(p.presses =~= Seq::<MessageView>::empty());
    assert(p.releases =~= Seq::<ReleaseView>::empty());
}

/// Every press of a plan has its release: the plan holds as many releases
/// as presses, the release at each place writes to the parameter of the
/// press at that place, and it is due after the action's duration.
pub proof fn each_press_has_its_release(a: ActionView, i: int)
    requires
        plan_of(a) is Ok,
        0 <= i < plan_of(a)->Ok_0.presses.len(),
    ensures
        plan_of(a)->Ok_0.releases.len() == plan_of(a)->Ok_0.presses.len(),
        plan_of(a)->Ok_0.releases[i].write.addr == plan_of(a)->Ok_0.presses[i].addr,
        plan_of(a)->Ok_0.releases[i].delay_secs == a.duration,
{
}

} // verus!
