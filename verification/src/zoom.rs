//! The lifecycle of the per-output desktop zoom state.
//!
//! A zoom state is an explicit finite-state machine whose variants are the
//! only legal combinations of resting state, autonomous level transitions,
//! direct-manipulation gestures, deadzone follows and the zoom lock. This
//! module holds that machine: which variant the state is in and which
//! variant every operation leads to. Levels, focal points and animation
//! curves are floating-point quantities that this crate does not hold; every
//! decision of an operation that depends on them is handed in as an
//! observation.

use vstd::prelude::*;

verus! {

/// Which operation created a zoom command.
#[derive(Clone, Copy, Debug, PartialEq, Eq, Structural)]
pub enum CommandDirection {
    /// `zoom-in`.
    In,
    /// `zoom-out`.
    Out,
    /// `set-target-level`.
    Value,
}

/// The kind of a level command.
///
/// `In`, `Out` and `Value` record the operation that created an anchored
/// command; `ToIdentity` is the command towards level 1, which keeps its focal
/// point fixed instead of following an anchor.
#[derive(Clone, Copy, Debug, PartialEq, Eq, Structural)]
pub enum CommandKind {
    In,
    Out,
    Value,
    ToIdentity,
}

/// An autonomous level transition of an unlocked output.
#[derive(Clone, Copy, Debug, PartialEq, Eq, Structural)]
pub enum ZoomingKind {
    /// A user zoom command.
    Command(CommandKind),
    /// A viewport restore.
    Restore,
}

/// How the focal point behaves during a gesture.
#[derive(Clone, Copy, Debug, PartialEq, Eq, Structural)]
pub enum GestureFocalKind {
    /// A content point stays at its displayed position.
    Anchored,
    /// The focal point is frozen.
    Fixed,
}

/// How a level target compares with the currently displayed level.
#[derive(Clone, Copy, Debug, PartialEq, Eq, Structural)]
pub enum LevelDelta {
    Above,
    Below,
    Equal,
}

/// The variant of the zoom state of one output.
#[derive(Clone, Copy, Debug, PartialEq, Eq, Structural)]
pub enum ZoomPhase {
    /// Resting, unlocked.
    Idle,
    /// A deadzone camera follow at a resting level.
    Follow,
    /// An autonomous level transition owns the viewport.
    Zooming(ZoomingKind),
    /// A level command and a deadzone drift of its anchor run together.
    ZoomingFollow(CommandKind),
    /// A direct-manipulation gesture owns the level.
    Gesture(GestureFocalKind),
    /// Resting, locked.
    Locked,
    /// A locked level command.
    LockedZooming(CommandKind),
    /// A locked gesture.
    LockedGesture(GestureFocalKind),
}

/// What a restore that is taken over by a level command turns into: the
/// restore target is exactly 1, or how the target compares with the
/// displayed level.
#[derive(Clone, Copy, Debug, PartialEq, Eq, Structural)]
pub struct RestoreTakeover {
    pub to_identity: bool,
    pub delta: LevelDelta,
}

/// Observations made by the caller when a level command is requested.
#[derive(Clone, Copy, Debug, PartialEq, Eq, Structural)]
pub struct CommandObservation {
    /// The committed level already equals the command target.
    pub at_target: bool,
    /// Animations are off: the level is set immediately.
    pub config_off: bool,
    /// The command target is exactly 1.
    pub to_identity: bool,
}

/// Observations made by the caller for one deadzone tracking evaluation.
#[derive(Clone, Copy, Debug, PartialEq, Eq, Structural)]
pub struct CursorObservation {
    /// The displayed level is exactly 1.
    pub level_is_one: bool,
    /// The cursor needs a new focal point: it is displayed outside the
    /// deadzone and the clamped focal target differs from the displayed one.
    pub focal_target: bool,
    /// How a restore taken over by the pointer becomes a command.
    pub restore_takeover: RestoreTakeover,
    /// Animations are off or the clock completes them instantly.
    pub instant: bool,
    /// The displayed cursor overshoots the deadzone with a non-zero
    /// intensity, so a distance-driven step exists.
    pub follow_input: bool,
    /// This frame's follow step reaches the focal target.
    pub follow_arrives: bool,
    /// A drift of a command anchor is allowed (the command zooms above 1 and
    /// the cursor overshoots the deadzone) and can still move the camera.
    pub drift_reachable: bool,
    /// This frame's drift step reaches the deadzone border.
    pub drift_arrives: bool,
}

/// Observations made by the caller when animations are advanced.
#[derive(Clone, Copy, Debug, PartialEq, Eq, Structural)]
pub struct AdvanceObservation {
    /// The running level animation has reached its target.
    pub animation_done: bool,
    /// A drift that outlives its command resolves to the displayed focal
    /// point, so no follow is left to run.
    pub drift_settled: bool,
    /// A resting follow has reached its focal target.
    pub follow_at_target: bool,
}

/// Observations made by the caller for an animated restore.
#[derive(Clone, Copy, Debug, PartialEq, Eq, Structural)]
pub struct RestoreObservation {
    /// Animations are off: the snapshot is restored immediately.
    pub config_off: bool,
    /// The saved target level is exactly 1.
    pub to_identity: bool,
    /// How the saved target level compares with the displayed level.
    pub delta: LevelDelta,
    /// The displayed level and focal point already equal the destination.
    pub at_destination: bool,
}

/// The command kind created by an operation of the given direction.
pub open spec fn direction_kind(direction: CommandDirection) -> CommandKind {
    match direction {
        CommandDirection::In => CommandKind::In,
        CommandDirection::Out => CommandKind::Out,
        CommandDirection::Value => CommandKind::Value,
    }
}

/// The command kind classified by the level delta.
pub open spec fn delta_kind(delta: LevelDelta) -> CommandKind {
    match delta {
        LevelDelta::Above => CommandKind::In,
        LevelDelta::Below => CommandKind::Out,
        LevelDelta::Equal => CommandKind::Value,
    }
}

impl RestoreTakeover {
    /// The command a restore becomes when it is taken over.
    pub open spec fn command(self) -> CommandKind {
        if self.to_identity {
            CommandKind::ToIdentity
        } else {
            delta_kind(self.delta)
        }
    }
}

impl ZoomPhase {
    /// A combined drift never runs with a command towards the identity.
    pub open spec fn wf(self) -> bool {
        self matches ZoomPhase::ZoomingFollow(k) ==> k != CommandKind::ToIdentity
    }

    /// Focal tracking is locked.
    pub open spec fn locked(self) -> bool {
        self is Locked || self is LockedZooming || self is LockedGesture
    }

    /// An autonomous (clock-driven) level transition is in progress.
    pub open spec fn zooming(self) -> bool {
        self is Zooming || self is ZoomingFollow || self is LockedZooming
    }

    /// A deadzone follow owns the focal point.
    pub open spec fn following(self) -> bool {
        self is Follow || self is ZoomingFollow
    }

    /// A direct-manipulation gesture owns the level.
    pub open spec fn gesturing(self) -> bool {
        self is Gesture || self is LockedGesture
    }

    /// The state owns only its committed view: no transition, gesture or
    /// follow is running.
    pub open spec fn at_rest(self) -> bool {
        self is Idle || self is Locked
    }

    /// The resting state that keeps the current lock.
    pub open spec fn rest_keeping_lock(self) -> ZoomPhase {
        if self.locked() {
            ZoomPhase::Locked
        } else {
            ZoomPhase::Idle
        }
    }

    /// The state after a resting follow commits its focal point.
    pub open spec fn after_commit_follow(self) -> ZoomPhase {
        if self is Follow {
            ZoomPhase::Idle
        } else {
            self
        }
    }

    /// The state after a combined drift is dropped.
    pub open spec fn after_collapse_drift(self) -> ZoomPhase {
        match self {
            ZoomPhase::ZoomingFollow(k) => ZoomPhase::Zooming(ZoomingKind::Command(k)),
            _ => self,
        }
    }

    /// The state after locking.
    pub open spec fn after_lock(self, takeover: RestoreTakeover) -> ZoomPhase {
        match self {
            ZoomPhase::Idle | ZoomPhase::Follow | ZoomPhase::Locked => ZoomPhase::Locked,
            ZoomPhase::Zooming(ZoomingKind::Command(k)) => ZoomPhase::LockedZooming(k),
            ZoomPhase::Zooming(ZoomingKind::Restore) => ZoomPhase::LockedZooming(
                takeover.command(),
            ),
            ZoomPhase::ZoomingFollow(k) => ZoomPhase::LockedZooming(k),
            ZoomPhase::Gesture(_) | ZoomPhase::LockedGesture(_) => ZoomPhase::LockedGesture(
                GestureFocalKind::Fixed,
            ),
            ZoomPhase::LockedZooming(k) => ZoomPhase::LockedZooming(k),
        }
    }

    /// The state after unlocking.
    pub open spec fn after_unlock(self) -> ZoomPhase {
        match self {
            ZoomPhase::Locked | ZoomPhase::Follow => ZoomPhase::Idle,
            ZoomPhase::LockedZooming(k) => ZoomPhase::Zooming(ZoomingKind::Command(k)),
            ZoomPhase::LockedGesture(f) => ZoomPhase::Gesture(f),
            _ => self,
        }
    }

    /// The state after a level command of `direction` is requested.
    pub open spec fn after_command(
        self,
        direction: CommandDirection,
        obs: CommandObservation,
    ) -> ZoomPhase {
        if (self is Idle || self is Follow || self is Locked) && obs.at_target {
            self
        } else if obs.config_off {
            self.rest_keeping_lock()
        } else {
            let k = if obs.to_identity {
                CommandKind::ToIdentity
            } else {
                direction_kind(direction)
            };
            if self.locked() {
                ZoomPhase::LockedZooming(k)
            } else if k != CommandKind::ToIdentity && self.following() {
                ZoomPhase::ZoomingFollow(k)
            } else {
                ZoomPhase::Zooming(ZoomingKind::Command(k))
            }
        }
    }

    /// The state and report of a drift evaluation of an anchored command.
    pub open spec fn after_display_follow(self, obs: CursorObservation) -> (ZoomPhase, bool) {
        match self {
            ZoomPhase::Zooming(ZoomingKind::Command(k)) => {
                if !obs.drift_reachable {
                    (self, false)
                } else if obs.instant {
                    (self, true)
                } else if k == CommandKind::ToIdentity {
                    (self, false)
                } else {
                    (ZoomPhase::ZoomingFollow(k), true)
                }
            },
            ZoomPhase::ZoomingFollow(k) => {
                if !obs.drift_reachable || obs.instant || obs.drift_arrives {
                    (ZoomPhase::Zooming(ZoomingKind::Command(k)), true)
                } else {
                    (self, true)
                }
            },
            _ => (self, false),
        }
    }

    /// The state and report of a follow evaluation.
    pub open spec fn after_follow(self, obs: CursorObservation) -> (ZoomPhase, bool) {
        if self.locked() {
            (self, false)
        } else {
            match self {
                ZoomPhase::Zooming(ZoomingKind::Command(_))
                | ZoomPhase::ZoomingFollow(_) => self.after_display_follow(obs),
                ZoomPhase::Idle | ZoomPhase::Follow => {
                    if obs.level_is_one || !obs.focal_target {
                        (ZoomPhase::Idle, self is Follow)
                    } else if obs.instant || !obs.follow_input || obs.follow_arrives {
                        (ZoomPhase::Idle, true)
                    } else {
                        (ZoomPhase::Follow, true)
                    }
                },
                _ => (self, false),
            }
        }
    }

    /// The state and report of a deadzone tracking evaluation for the cursor.
    pub open spec fn after_cursor(self, obs: CursorObservation) -> (ZoomPhase, bool) {
        if self.gesturing() || self.locked() || obs.level_is_one {
            (self, false)
        } else if self is ZoomingFollow || self matches ZoomPhase::Zooming(
            ZoomingKind::Command(_),
        ) {
            self.after_follow(obs)
        } else if !obs.focal_target {
            (self.after_commit_follow(), self is Follow)
        } else if self matches ZoomPhase::Zooming(ZoomingKind::Restore) {
            (ZoomPhase::Zooming(ZoomingKind::Command(obs.restore_takeover.command())), true)
        } else {
            self.after_follow(obs)
        }
    }

    /// The state after a gesture begins.
    pub open spec fn after_begin_gesture(self) -> ZoomPhase {
        if self.locked() {
            ZoomPhase::LockedGesture(GestureFocalKind::Anchored)
        } else {
            ZoomPhase::Gesture(GestureFocalKind::Anchored)
        }
    }

    /// The state after a gesture ends.
    pub open spec fn after_end_gesture(self) -> ZoomPhase {
        if self.gesturing() {
            self.rest_keeping_lock()
        } else {
            self
        }
    }

    /// The state after finished transitions are committed.
    pub open spec fn after_advance(self, obs: AdvanceObservation) -> ZoomPhase {
        match self {
            ZoomPhase::Zooming(_) => if obs.animation_done {
                ZoomPhase::Idle
            } else {
                self
            },
            ZoomPhase::ZoomingFollow(_) => if !obs.animation_done {
                self
            } else if obs.drift_settled {
                ZoomPhase::Idle
            } else {
                ZoomPhase::Follow
            },
            ZoomPhase::LockedZooming(_) => if obs.animation_done {
                ZoomPhase::Locked
            } else {
                self
            },
            ZoomPhase::Follow => if obs.follow_at_target {
                ZoomPhase::Idle
            } else {
                self
            },
            _ => self,
        }
    }

    /// The state after an animated restore is requested.
    pub open spec fn after_restore(self, obs: RestoreObservation) -> ZoomPhase {
        let s = self.after_commit_follow();
        if obs.config_off {
            s.rest_keeping_lock()
        } else if s.locked() {
            ZoomPhase::LockedZooming(
                RestoreTakeover { to_identity: obs.to_identity, delta: obs.delta }.command(),
            )
        } else if obs.at_destination {
            ZoomPhase::Idle
        } else {
            ZoomPhase::Zooming(ZoomingKind::Restore)
        }
    }

    /// A new zoom state: 1x, unlocked, at rest.
    pub fn new() -> (s: ZoomPhase)
        ensures
            s == ZoomPhase::Idle,
    {
        ZoomPhase::Idle
    }

    /// Whether focal tracking is locked.
    pub fn is_locked(&self) -> (b: bool)
        ensures
            b == self.locked(),
    {
        matches!(self, ZoomPhase::Locked | ZoomPhase::LockedZooming(_) | ZoomPhase::LockedGesture(_))
    }

    /// Whether an autonomous level transition is in progress.
    pub fn is_zooming(&self) -> (b: bool)
        ensures
            b == self.zooming(),
    {
        matches!(self, ZoomPhase::Zooming(_) | ZoomPhase::ZoomingFollow(_) | ZoomPhase::LockedZooming(_))
    }

    /// Whether a deadzone follow currently owns the focal point.
    pub fn is_following(&self) -> (b: bool)
        ensures
            b == self.following(),
    {
        matches!(self, ZoomPhase::Follow | ZoomPhase::ZoomingFollow(_))
    }

    /// Whether a direct-manipulation gesture currently owns the zoom level.
    pub fn is_gesturing(&self) -> (b: bool)
        ensures
            b == self.gesturing(),
    {
        matches!(self, ZoomPhase::Gesture(_) | ZoomPhase::LockedGesture(_))
    }

    /// Whether a zoom level transition is in progress.
    ///
    /// `animation_done` tells whether the running level animation reached its
    /// target; `follow_at_target` whether a resting follow reached its focal
    /// target. A gesture is not an animation, and a combined drift animates
    /// until it is handed off.
    pub fn is_animating(&self, animation_done: bool, follow_at_target: bool) -> (b: bool)
        ensures
            b == match *self {
                ZoomPhase::Zooming(_) | ZoomPhase::LockedZooming(_) => !animation_done,
                ZoomPhase::ZoomingFollow(_) => true,
                ZoomPhase::Follow => !follow_at_target,
                _ => false,
            },
    {
        match self {
            ZoomPhase::Zooming(_) | ZoomPhase::LockedZooming(_) => !animation_done,
            ZoomPhase::ZoomingFollow(_) => true,
            ZoomPhase::Follow => !follow_at_target,
            _ => false,
        }
    }

    /// The command kind of a restore that is taken over.
    pub fn takeover_command(takeover: RestoreTakeover) -> (k: CommandKind)
        ensures
            k == takeover.command(),
    {
        if takeover.to_identity {
            CommandKind::ToIdentity
        } else {
            match takeover.delta {
                LevelDelta::Above => CommandKind::In,
                LevelDelta::Below => CommandKind::Out,
                LevelDelta::Equal => CommandKind::Value,
            }
        }
    }

    /// Locks focal tracking.
    ///
    /// A follow commits its focal point and a drift is dropped; a command
    /// keeps its kind; a restore becomes a command towards its target; a
    /// gesture freezes its focal point.
    pub fn lock(&mut self, takeover: RestoreTakeover)
        requires
            old(self).wf(),
        ensures
            *final(self) == old(self).after_lock(takeover),
            final(self).wf(),
    {
        let next = match *self {
            ZoomPhase::Idle | ZoomPhase::Follow | ZoomPhase::Locked => ZoomPhase::Locked,
            ZoomPhase::Zooming(ZoomingKind::Command(k)) => ZoomPhase::LockedZooming(k),
            ZoomPhase::Zooming(ZoomingKind::Restore) => ZoomPhase::LockedZooming(
                Self::takeover_command(takeover),
            ),
            ZoomPhase::ZoomingFollow(k) => ZoomPhase::LockedZooming(k),
            ZoomPhase::Gesture(_) | ZoomPhase::LockedGesture(_) => ZoomPhase::LockedGesture(
                GestureFocalKind::Fixed,
            ),
            ZoomPhase::LockedZooming(k) => ZoomPhase::LockedZooming(k),
        };
        *self = next;
    }

    /// Unlocks focal tracking.
    ///
    /// A locked command becomes the unlocked command of the same kind, a
    /// locked gesture keeps its focal mode, and a resting follow commits.
    pub fn unlock(&mut self)
        requires
            old(self).wf(),
        ensures
            *final(self) == old(self).after_unlock(),
            final(self).wf(),
    {
        let next = match *self {
            ZoomPhase::Locked | ZoomPhase::Follow => ZoomPhase::Idle,
            ZoomPhase::LockedZooming(k) => ZoomPhase::Zooming(ZoomingKind::Command(k)),
            ZoomPhase::LockedGesture(f) => ZoomPhase::Gesture(f),
            s => s,
        };
        *self = next;
    }

    /// Sets whether focal tracking is locked.
    pub fn set_locked(&mut self, locked: bool, takeover: RestoreTakeover)
        requires
            old(self).wf(),
        ensures
            *final(self) == if locked {
                old(self).after_lock(takeover)
            } else {
                old(self).after_unlock()
            },
            final(self).wf(),
            final(self).locked() == locked,
    {
        if locked {
            self.lock(takeover);
        } else {
            self.unlock();
        }
    }

    /// Toggles whether focal tracking is locked.
    pub fn toggle_locked(&mut self, takeover: RestoreTakeover)
        requires
            old(self).wf(),
        ensures
            *final(self) == if old(self).locked() {
                old(self).after_unlock()
            } else {
                old(self).after_lock(takeover)
            },
            final(self).wf(),
            final(self).locked() == !old(self).locked(),
    {
        let locked = self.is_locked();
        self.set_locked(!locked, takeover);
    }

    /// Starts a level command of `direction`.
    ///
    /// A resting state already at the target is left alone. With animations
    /// off the level is set immediately and the state rests, keeping its
    /// lock. Otherwise a locked state runs a locked command; an unlocked
    /// follow or drift keeps following as the command's drift, except for a
    /// command towards the identity, which drops it.
    pub fn start_command(&mut self, direction: CommandDirection, obs: CommandObservation)
        requires
            old(self).wf(),
        ensures
            *final(self) == old(self).after_command(direction, obs),
            final(self).wf(),
    {
        let resting = matches!(self, ZoomPhase::Idle | ZoomPhase::Follow | ZoomPhase::Locked);
        if resting && obs.at_target {
            return;
        }
        if obs.config_off {
            let locked = self.is_locked();
            *self = if locked {
                ZoomPhase::Locked
            } else {
                ZoomPhase::Idle
            };
            return;
        }
        let k = if obs.to_identity {
            CommandKind::ToIdentity
        } else {
            match direction {
                CommandDirection::In => CommandKind::In,
                CommandDirection::Out => CommandKind::Out,
                CommandDirection::Value => CommandKind::Value,
            }
        };
        let next = if self.is_locked() {
            ZoomPhase::LockedZooming(k)
        } else if k != CommandKind::ToIdentity && self.is_following() {
            ZoomPhase::ZoomingFollow(k)
        } else {
            ZoomPhase::Zooming(ZoomingKind::Command(k))
        };
        *self = next;
    }

    /// Starts an absolute `set-target-level` command.
    pub fn set_target_level(&mut self, obs: CommandObservation)
        requires
            old(self).wf(),
        ensures
            *final(self) == old(self).after_command(CommandDirection::Value, obs),
            final(self).wf(),
    {
        self.start_command(CommandDirection::Value, obs);
    }

    /// Starts a `zoom-in` command.
    pub fn zoom_in(&mut self, obs: CommandObservation)
        requires
            old(self).wf(),
        ensures
            *final(self) == old(self).after_command(CommandDirection::In, obs),
            final(self).wf(),
    {
        self.start_command(CommandDirection::In, obs);
    }

    /// Starts a `zoom-out` command.
    pub fn zoom_out(&mut self, obs: CommandObservation)
        requires
            old(self).wf(),
        ensures
            *final(self) == old(self).after_command(CommandDirection::Out, obs),
            final(self).wf(),
    {
        self.start_command(CommandDirection::Out, obs);
    }

    /// Activates a pointer-anchored preset and locks its camera immediately:
    /// unlocks, starts a `set-target-level` command and locks again.
    ///
    /// `obs` is observed on the unlocked state. No restore is running after
    /// the command starts, so the lock needs no takeover.
    pub fn set_target_level_and_lock(&mut self, obs: CommandObservation)
        requires
            old(self).wf(),
        ensures
            *final(self) == old(self).after_unlock().after_command(
                CommandDirection::Value,
                obs,
            ).after_lock(RestoreTakeover { to_identity: false, delta: LevelDelta::Equal }),
            final(self).wf(),
            final(self).locked(),
    {
        self.unlock();
        self.set_target_level(obs);
        self.lock(RestoreTakeover { to_identity: false, delta: LevelDelta::Equal });
    }

    /// Drops a combined drift, collapsing it back to a plain command.
    ///
    /// Returns whether a drift was active.
    fn collapse_drift(&mut self) -> (changed: bool)
        requires
            old(self).wf(),
        ensures
            *final(self) == old(self).after_collapse_drift(),
            changed == (*old(self) is ZoomingFollow),
            final(self).wf(),
    {
        match *self {
            ZoomPhase::ZoomingFollow(k) => {
                *self = ZoomPhase::Zooming(ZoomingKind::Command(k));
                true
            },
            _ => false,
        }
    }

    /// Commits an active resting follow at its current displayed focal point.
    ///
    /// Returns whether a follow was committed.
    pub fn commit_follow_focal(&mut self) -> (changed: bool)
        requires
            old(self).wf(),
        ensures
            *final(self) == old(self).after_commit_follow(),
            changed == (*old(self) is Follow),
            final(self).wf(),
    {
        if matches!(self, ZoomPhase::Follow) {
            *self = ZoomPhase::Idle;
            true
        } else {
            false
        }
    }

    /// Suspends deadzone follow activity without moving the camera: commits
    /// a resting follow and drops a drift.
    ///
    /// Returns whether the state changed.
    pub fn suspend_follow(&mut self) -> (changed: bool)
        requires
            old(self).wf(),
        ensures
            *final(self) == old(self).after_collapse_drift().after_commit_follow(),
            changed == old(self).following(),
            !final(self).following(),
            final(self).wf(),
    {
        let drift = self.collapse_drift();
        let committed = self.commit_follow_focal();
        committed || drift
    }

    /// Retargets the deadzone drift of an in-progress anchored command.
    fn update_display_follow(&mut self, obs: CursorObservation) -> (changed: bool)
        requires
            old(self).wf(),
        ensures
            (*final(self), changed) == old(self).after_display_follow(obs),
            final(self).wf(),
    {
        match *self {
            ZoomPhase::Zooming(ZoomingKind::Command(k)) => {
                if !obs.drift_reachable {
                    false
                } else if obs.instant {
                    true
                } else if k == CommandKind::ToIdentity {
                    false
                } else {
                    *self = ZoomPhase::ZoomingFollow(k);
                    true
                }
            },
            ZoomPhase::ZoomingFollow(_) => {
                if !obs.drift_reachable || obs.instant || obs.drift_arrives {
                    self.collapse_drift();
                }
                true
            },
            _ => false,
        }
    }

    /// Starts, steps or ends a deadzone follow.
    ///
    /// During an anchored command this retargets the command's drift; a
    /// restore, a gesture and every locked state are left alone. At rest a
    /// follow starts when the cursor needs a new focal point, and ends when
    /// the step reaches the target, when the focal point is set at once, or
    /// when the cursor needs no new focal point.
    ///
    /// Returns whether the state changed.
    pub fn update_follow(&mut self, obs: CursorObservation) -> (changed: bool)
        requires
            old(self).wf(),
        ensures
            (*final(self), changed) == old(self).after_follow(obs),
            final(self).wf(),
    {
        if self.is_locked() {
            return false;
        }
        match *self {
            ZoomPhase::Zooming(ZoomingKind::Command(_)) | ZoomPhase::ZoomingFollow(_) => {
                self.update_display_follow(obs)
            },
            ZoomPhase::Idle | ZoomPhase::Follow => {
                if obs.level_is_one || !obs.focal_target {
                    self.commit_follow_focal()
                } else if obs.instant || !obs.follow_input || obs.follow_arrives {
                    *self = ZoomPhase::Idle;
                    true
                } else {
                    *self = ZoomPhase::Follow;
                    true
                }
            },
            _ => false,
        }
    }

    /// Evaluates deadzone tracking for the cursor.
    ///
    /// Does nothing while gesturing, while locked or at level 1. A restore is
    /// taken over by a command towards its target; otherwise the follow or
    /// drift is evaluated.
    ///
    /// Returns whether the state changed.
    pub fn update_focal_for_cursor(&mut self, obs: CursorObservation) -> (changed: bool)
        requires
            old(self).wf(),
        ensures
            (*final(self), changed) == old(self).after_cursor(obs),
            final(self).wf(),
    {
        if self.is_gesturing() {
            return false;
        }
        if self.is_locked() || obs.level_is_one {
            return false;
        }
        if matches!(self, ZoomPhase::ZoomingFollow(_) | ZoomPhase::Zooming(ZoomingKind::Command(_))) {
            return self.update_follow(obs);
        }
        if !obs.focal_target {
            return self.commit_follow_focal();
        }
        if matches!(self, ZoomPhase::Zooming(ZoomingKind::Restore)) {
            *self = ZoomPhase::Zooming(
                ZoomingKind::Command(Self::takeover_command(obs.restore_takeover)),
            );
            return true;
        }
        self.update_follow(obs)
    }

    /// Sets the level immediately: every transition is cancelled and the
    /// state rests, keeping its lock.
    pub fn set_level_immediate(&mut self)
        requires
            old(self).wf(),
        ensures
            *final(self) == old(self).rest_keeping_lock(),
            final(self).wf(),
    {
        self.commit_follow_focal();
        let locked = self.is_locked();
        *self = if locked {
            ZoomPhase::Locked
        } else {
            ZoomPhase::Idle
        };
    }

    /// Ends the zoom session: the state becomes the resting unlocked 1x
    /// identity, dropping every transition, gesture, follow and the lock.
    pub fn end_session(&mut self)
        ensures
            *final(self) == ZoomPhase::Idle,
    {
        *self = ZoomPhase::Idle;
    }

    /// Begins a direct-manipulation gesture anchored on the pointer, or on
    /// the viewport center while locked.
    pub fn begin_gesture(&mut self)
        requires
            old(self).wf(),
        ensures
            *final(self) == old(self).after_begin_gesture(),
            final(self).wf(),
    {
        self.commit_follow_focal();
        let locked = self.is_locked();
        *self = if locked {
            ZoomPhase::LockedGesture(GestureFocalKind::Anchored)
        } else {
            ZoomPhase::Gesture(GestureFocalKind::Anchored)
        };
    }

    /// Applies a gesture update.
    ///
    /// `scale_valid` tells whether the scale is finite and positive,
    /// `level_changes` whether the clamped and snapped level differs from
    /// the current one. The variant never changes; returns whether the
    /// displayed level changed.
    pub fn update_gesture(&self, scale_valid: bool, level_changes: bool) -> (changed: bool)
        ensures
            changed == (self.gesturing() && scale_valid && level_changes),
    {
        if !self.is_gesturing() {
            return false;
        }
        scale_valid && level_changes
    }

    /// Commits the current gesture state and ends the gesture.
    pub fn end_gesture(&mut self)
        requires
            old(self).wf(),
        ensures
            *final(self) == old(self).after_end_gesture(),
            final(self).wf(),
    {
        if !self.is_gesturing() {
            return;
        }
        let locked = self.is_locked();
        *self = if locked {
            ZoomPhase::Locked
        } else {
            ZoomPhase::Idle
        };
    }

    /// Adjusts to a new output size: an active follow commits first, every
    /// other state keeps its variant.
    pub fn update_view_size(&mut self)
        requires
            old(self).wf(),
        ensures
            *final(self) == old(self).after_commit_follow(),
            final(self).wf(),
    {
        self.commit_follow_focal();
    }

    /// Commits finished transitions.
    ///
    /// A finished command or restore rests; a finished command whose drift
    /// is still running continues as a resting follow; a follow that reached
    /// its target rests. Gestures are never completed here.
    pub fn advance_animations(&mut self, obs: AdvanceObservation)
        requires
            old(self).wf(),
        ensures
            *final(self) == old(self).after_advance(obs),
            final(self).wf(),
    {
        let next = match *self {
            ZoomPhase::Zooming(_) => if obs.animation_done {
                ZoomPhase::Idle
            } else {
                *self
            },
            ZoomPhase::ZoomingFollow(_) => if !obs.animation_done {
                *self
            } else if obs.drift_settled {
                ZoomPhase::Idle
            } else {
                ZoomPhase::Follow
            },
            ZoomPhase::LockedZooming(_) => if obs.animation_done {
                ZoomPhase::Locked
            } else {
                *self
            },
            ZoomPhase::Follow => if obs.follow_at_target {
                ZoomPhase::Idle
            } else {
                *self
            },
            s => s,
        };
        *self = next;
    }

    /// Restores a snapshot immediately: the state rests at the saved level,
    /// keeping its lock.
    pub fn restore_immediate(&mut self)
        requires
            old(self).wf(),
        ensures
            *final(self) == old(self).rest_keeping_lock(),
            final(self).wf(),
    {
        self.set_level_immediate();
    }

    /// Restores a snapshot with an animated transition.
    ///
    /// With animations off the snapshot is restored immediately. While
    /// locked only the level animates, as a locked command towards the saved
    /// level. Otherwise the state restores the saved view, unless the
    /// display already shows it.
    pub fn restore_animated(&mut self, obs: RestoreObservation)
        requires
            old(self).wf(),
        ensures
            *final(self) == old(self).after_restore(obs),
            final(self).wf(),
    {
        self.commit_follow_focal();
        if obs.config_off {
            self.restore_immediate();
            return;
        }
        if self.is_locked() {
            let k = Self::takeover_command(RestoreTakeover { to_identity: obs.to_identity, delta: obs.delta });
            *self = ZoomPhase::LockedZooming(k);
            return;
        }
        *self = if obs.at_destination {
            ZoomPhase::Idle
        } else {
            ZoomPhase::Zooming(ZoomingKind::Restore)
        };
    }
}

/// The variants are mutually exclusive in what owns the viewport: a follow
/// never runs while locked or gesturing, a gesture is never an autonomous
/// transition, and a resting state runs nothing.
pub proof fn lemma_phase_exclusive(s: ZoomPhase)
    ensures
        s.following() ==> !s.locked() && !s.gesturing(),
        s.gesturing() ==> !s.zooming(),
        s.at_rest() ==> !s.zooming() && !s.following() && !s.gesturing(),
{
}

/// Locking always locks and unlocking always unlocks; neither starts or
/// stops a level transition or a gesture.
pub proof fn lemma_lock_unlock_activity(s: ZoomPhase, takeover: RestoreTakeover)
    requires
        s.wf(),
    ensures
        s.after_lock(takeover).locked(),
        !s.after_unlock().locked(),
        s.after_lock(takeover).zooming() == s.zooming(),
        s.after_lock(takeover).gesturing() == s.gesturing(),
        s.after_unlock().zooming() == s.zooming(),
        s.after_unlock().gesturing() == s.gesturing(),
        s.after_lock(takeover).wf(),
        s.after_unlock().wf(),
{
}

/// Unlocking and locking again gives back the locked state, except for a
/// locked gesture still anchored on the viewport center, which locks again
/// with its focal point frozen. Locking a resting state and unlocking it
/// again rests unlocked.
pub proof fn lemma_lock_unlock_roundtrip(s: ZoomPhase, takeover: RestoreTakeover)
    requires
        s.wf(),
    ensures
        s.locked() && s != ZoomPhase::LockedGesture(GestureFocalKind::Anchored) ==> s.after_unlock().after_lock(takeover) == s,
        s.at_rest() ==> s.after_lock(takeover).after_unlock() == ZoomPhase::Idle,
{
}

/// A resting state already at the command target ignores the command.
pub proof fn lemma_command_at_target_noop(
    s: ZoomPhase,
    direction: CommandDirection,
    obs: CommandObservation,
)
    requires
        s is Idle || s is Follow || s is Locked,
        obs.at_target,
    ensures
        s.after_command(direction, obs) == s,
{
}

/// A command that is not ignored keeps the lock. With animations off it
/// rests at once; otherwise it starts an autonomous level transition, and a
/// command towards the identity drops any follow.
pub proof fn lemma_command_outcome(s: ZoomPhase, direction: CommandDirection, obs: CommandObservation)
    requires
        s.wf(),
        !((s is Idle || s is Follow || s is Locked) && obs.at_target),
    ensures
        s.after_command(direction, obs).locked() == s.locked(),
        obs.config_off ==> s.after_command(direction, obs).at_rest(),
        !obs.config_off ==> s.after_command(direction, obs).zooming(),
        !obs.config_off && obs.to_identity ==> !s.after_command(direction, obs).following(),
        !obs.config_off && !obs.to_identity && !s.locked() && s.following()
            ==> s.after_command(direction, obs) == ZoomPhase::ZoomingFollow(direction_kind(direction)),
{
}

/// A gesture keeps the lock while it runs, and ending it rests at the
/// gesture's level with the lock it began with.
pub proof fn lemma_gesture_lifecycle(s: ZoomPhase)
    requires
        s.wf(),
    ensures
        s.after_begin_gesture().gesturing(),
        s.after_begin_gesture().locked() == s.locked(),
        s.after_begin_gesture().after_end_gesture() == s.rest_keeping_lock(),
        !s.after_end_gesture().gesturing(),
        s.after_end_gesture().locked() == s.locked(),
{
}

/// Advancing animations never changes the lock or a gesture, and once the
/// level animation is done no autonomous transition is left.
pub proof fn lemma_advance_outcome(s: ZoomPhase, obs: AdvanceObservation)
    requires
        s.wf(),
    ensures
        s.after_advance(obs).locked() == s.locked(),
        s.after_advance(obs).gesturing() == s.gesturing(),
        obs.animation_done ==> !s.after_advance(obs).zooming(),
{
}

/// Pointer tracking never touches a locked state or a gesture, never locks,
/// and never starts a gesture.
pub proof fn lemma_cursor_respects_lock_and_gesture(s: ZoomPhase, obs: CursorObservation)
    requires
        s.wf(),
    ensures
        s.locked() || s.gesturing() ==> s.after_cursor(obs) == (s, false),
        s.after_cursor(obs).0.locked() == s.locked(),
        !s.locked() ==> !s.after_cursor(obs).0.gesturing() || s.gesturing(),
        s.after_cursor(obs).1 == false ==> s.after_cursor(obs).0 == s,
{
}

/// An animated restore keeps the lock; while locked it is a level command.
pub proof fn lemma_restore_keeps_lock(s: ZoomPhase, obs: RestoreObservation)
    requires
        s.wf(),
    ensures
        s.after_restore(obs).locked() == s.locked(),
        s.locked() && !obs.config_off ==> s.after_restore(obs) is LockedZooming,
        !s.after_restore(obs).following(),
        !s.after_restore(obs).gesturing(),
{
}

/// Toggling the lock twice gives back the lock flag.
pub proof fn lemma_toggle_twice(s: ZoomPhase, t1: RestoreTakeover, t2: RestoreTakeover)
    requires
        s.wf(),
    ensures
        ({
            let once = if s.locked() { s.after_unlock() } else { s.after_lock(t1) };
            let twice = if once.locked() { once.after_unlock() } else { once.after_lock(t2) };
            twice.locked() == s.locked()
        }),
{
}

/// The drift of a running command ends as soon as it can no longer move the
/// camera, when animations complete at once, or when its step reaches the
/// deadzone border: the command keeps running on its own and the evaluation
/// reports a change. Otherwise the drift keeps running. This holds for the
/// follow evaluation and, away from level 1, for cursor tracking.
pub proof fn lemma_drift_ends_when_unreachable(k: CommandKind, obs: CursorObservation)
    requires
        k != CommandKind::ToIdentity,
    ensures
        ({
            let s = ZoomPhase::ZoomingFollow(k);
            let ends = !obs.drift_reachable || obs.instant || obs.drift_arrives;
            &&& ends ==> s.after_follow(obs) == (ZoomPhase::Zooming(ZoomingKind::Command(k)), true)
            &&& !ends ==> s.after_follow(obs) == (s, true)
            &&& !obs.level_is_one && ends ==> s.after_cursor(obs) == (
                ZoomPhase::Zooming(ZoomingKind::Command(k)),
                true,
            )
            &&& !obs.level_is_one && !ends ==> s.after_cursor(obs) == (s, true)
            &&& !obs.drift_reachable ==> !s.after_follow(obs).0.following()
        }),
{
}

/// A running command without a drift gains one only when the drift can move
/// the camera, animations do not complete at once and the command does not
/// head for level 1; an unreachable drift leaves the command untouched.
pub proof fn lemma_drift_starts_only_when_reachable(k: CommandKind, obs: CursorObservation)
    ensures
        ({
            let s = ZoomPhase::Zooming(ZoomingKind::Command(k));
            &&& !obs.drift_reachable ==> s.after_follow(obs) == (s, false)
            &&& s.after_follow(obs).0.following() <==> (obs.drift_reachable && !obs.instant
                && k != CommandKind::ToIdentity)
            &&& s.after_follow(obs).0.following() ==> s.after_follow(obs).0
                == ZoomPhase::ZoomingFollow(k)
        }),
{
}

/// An animated command that is not ignored records the requested kind:
/// towards the identity when the target is 1, else the kind of its
/// direction. Locked it is a locked command; unlocked it is a command,
/// possibly with a drift, and never a restore, whatever ran before.
pub proof fn lemma_command_records_request(
    s: ZoomPhase,
    direction: CommandDirection,
    obs: CommandObservation,
)
    requires
        s.wf(),
        !((s is Idle || s is Follow || s is Locked) && obs.at_target),
        !obs.config_off,
    ensures
        ({
            let k = if obs.to_identity {
                CommandKind::ToIdentity
            } else {
                match direction {
                    CommandDirection::In => CommandKind::In,
                    CommandDirection::Out => CommandKind::Out,
                    CommandDirection::Value => CommandKind::Value,
                }
            };
            let r = s.after_command(direction, obs);
            &&& s.locked() ==> r == ZoomPhase::LockedZooming(k)
            &&& !s.locked() ==> (r == ZoomPhase::Zooming(ZoomingKind::Command(k)) || r
                == ZoomPhase::ZoomingFollow(k))
            &&& r != ZoomPhase::Zooming(ZoomingKind::Restore)
        }),
{
}

/// Once the level animation is done, a transition rests: an unlocked
/// command or restore becomes `Idle`, a locked command `Locked`. Advancing
/// never starts a follow: only a follow, or the drift of a finished command,
/// is following afterwards.
pub proof fn lemma_advance_finishes_transitions(s: ZoomPhase, obs: AdvanceObservation)
    requires
        s.wf(),
    ensures
        obs.animation_done && s is Zooming ==> s.after_advance(obs) == ZoomPhase::Idle,
        obs.animation_done && s is LockedZooming ==> s.after_advance(obs) == ZoomPhase::Locked,
        obs.animation_done && s is ZoomingFollow && obs.drift_settled ==> s.after_advance(obs)
            == ZoomPhase::Idle,
        s.after_advance(obs).following() ==> s.following(),
        !obs.animation_done && s.zooming() ==> s.after_advance(obs) == s,
{
}

/// A gesture always begins anchored: on the pointer's content point when
/// unlocked, on the viewport center when locked.
pub proof fn lemma_begin_gesture_anchored(s: ZoomPhase)
    ensures
        !s.locked() ==> s.after_begin_gesture() == ZoomPhase::Gesture(GestureFocalKind::Anchored),
        s.locked() ==> s.after_begin_gesture() == ZoomPhase::LockedGesture(
            GestureFocalKind::Anchored,
        ),
{
}

/// A restore taken over by a command becomes a command towards the restore
/// target: towards the identity when the target is exactly 1, otherwise in
/// when the target lies above the displayed level, out when below, and a
/// value command when equal.
pub proof fn lemma_takeover_kind(t: RestoreTakeover)
    ensures
        t.to_identity ==> t.command() == CommandKind::ToIdentity,
        !t.to_identity && t.delta == LevelDelta::Above ==> t.command() == CommandKind::In,
        !t.to_identity && t.delta == LevelDelta::Below ==> t.command() == CommandKind::Out,
        !t.to_identity && t.delta == LevelDelta::Equal ==> t.command() == CommandKind::Value,
{
}

/// Locking keeps a running command's kind and drops its drift, turns a
/// restore into a command towards the restore target, rests every resting
/// state and follow, and freezes a gesture's focal point. Unlocking gives
/// back the unlocked command of the same kind or the gesture with the same
/// focal mode, rests a locked or following state, and leaves every other
/// unlocked state alone.
pub proof fn lemma_lock_outcome(s: ZoomPhase, takeover: RestoreTakeover)
    requires
        s.wf(),
    ensures
        forall|k: CommandKind|
            s == ZoomPhase::Zooming(ZoomingKind::Command(k)) || s == ZoomPhase::ZoomingFollow(k)
                || s == ZoomPhase::LockedZooming(k) ==> #[trigger] s.after_lock(takeover)
                == ZoomPhase::LockedZooming(k),
        s == ZoomPhase::Zooming(ZoomingKind::Restore) ==> s.after_lock(takeover)
            == ZoomPhase::LockedZooming(takeover.command()),
        s is Idle || s is Follow || s is Locked ==> s.after_lock(takeover) == ZoomPhase::Locked,
        s.gesturing() ==> s.after_lock(takeover) == ZoomPhase::LockedGesture(
            GestureFocalKind::Fixed,
        ),
        s matches ZoomPhase::LockedZooming(k) ==> s.after_unlock() == ZoomPhase::Zooming(
            ZoomingKind::Command(k),
        ),
        s matches ZoomPhase::LockedGesture(f) ==> s.after_unlock() == ZoomPhase::Gesture(f),
        s is Locked || s is Follow ==> s.after_unlock() == ZoomPhase::Idle,
        !s.locked() && !(s is Follow) ==> s.after_unlock() == s,
{
}

/// While a restore animates, a cursor that needs a new focal point takes
/// the restore over: it becomes a command towards the restore target and the
/// evaluation reports a change. A cursor inside the deadzone, or level 1,
/// leaves the restore running.
pub proof fn lemma_cursor_takes_over_restore(obs: CursorObservation)
    ensures
        ({
            let s = ZoomPhase::Zooming(ZoomingKind::Restore);
            &&& !obs.level_is_one && obs.focal_target ==> s.after_cursor(obs) == (
                ZoomPhase::Zooming(ZoomingKind::Command(obs.restore_takeover.command())),
                true,
            )
            &&& !obs.level_is_one && !obs.focal_target ==> s.after_cursor(obs) == (s, false)
            &&& obs.level_is_one ==> s.after_cursor(obs) == (s, false)
            &&& s.after_follow(obs) == (s, false)
        }),
{
}

/// At a resting level a follow runs after an evaluation exactly when the
/// displayed level is not 1, the cursor needs a new focal point, animations
/// do not complete at once, a step exists and it does not yet reach the
/// target; otherwise the state rests unlocked. The evaluation reports a
/// change whenever the cursor needs a new focal point away from level 1,
/// and otherwise exactly when a follow was running. Away from level 1,
/// cursor tracking evaluates the follow in the same way.
pub proof fn lemma_follow_at_rest(s: ZoomPhase, obs: CursorObservation)
    requires
        s is Idle || s is Follow,
    ensures
        ({
            let runs = !obs.level_is_one && obs.focal_target && !obs.instant && obs.follow_input
                && !obs.follow_arrives;
            &&& s.after_follow(obs).0 == (if runs {
                ZoomPhase::Follow
            } else {
                ZoomPhase::Idle
            })
            &&& s.after_follow(obs).1 == ((!obs.level_is_one && obs.focal_target) || s is Follow)
            &&& !obs.level_is_one ==> s.after_cursor(obs) == s.after_follow(obs)
            &&& obs.level_is_one ==> s.after_cursor(obs) == (s, false)
        }),
{
}

/// An animated restore keeps the lock. With animations off it rests at once;
/// locked, it is a locked command towards the saved level; unlocked, it
/// restores the saved view, or rests when the display already shows it.
pub proof fn lemma_restore_outcome(s: ZoomPhase, obs: RestoreObservation)
    requires
        s.wf(),
    ensures
        obs.config_off ==> s.after_restore(obs) == (if s.locked() {
            ZoomPhase::Locked
        } else {
            ZoomPhase::Idle
        }),
        !obs.config_off && s.locked() ==> s.after_restore(obs) == ZoomPhase::LockedZooming(
            RestoreTakeover { to_identity: obs.to_identity, delta: obs.delta }.command(),
        ),
        !obs.config_off && !s.locked() && obs.at_destination ==> s.after_restore(obs)
            == ZoomPhase::Idle,
        !obs.config_off && !s.locked() && !obs.at_destination ==> s.after_restore(obs)
            == ZoomPhase::Zooming(ZoomingKind::Restore),
{
}

} // verus!
