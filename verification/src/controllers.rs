//! The per-participant controller registry behind the overlay: one record
//! per remote participant, with its badge position, visibility,
//! last-activity time and enabled flag. Activity makes a badge visible;
//! five seconds of silence hide it; leaving removes it.
//!
//! The GPU badge itself (texture, draw call) lives outside the library;
//! it renders whatever this registry holds.

use vstd::prelude::*;
use crate::geometry::Position;
use crate::keyboard::str_eq;

verus! {

/// A controller's badge is hidden after this much inactivity, in
/// milliseconds.
pub const CONTROLLER_HIDE_TIMEOUT_MS: u64 = 5000;

/// One remote participant driving a cursor badge.
#[derive(Debug, Clone)]
pub struct Controller {
    /// The participant's stable identifier.
    pub sid: String,
    /// The participant's display name, drawn into the badge.
    pub name: String,
    /// The badge position, as window-local percentages in micro units.
    pub position: Position,
    /// Whether the badge is drawn.
    pub visible: bool,
    /// When the participant last sent an event, in milliseconds.
    pub last_activity_ms: u64,
    /// Whether the controller's input is replayed.
    pub enabled: bool,
}

/// Whether some controller in the sequence carries the identifier.
pub open spec fn has_sid(s: Seq<Controller>, sid: Seq<char>) -> bool {
    exists|i: int| 0 <= i < s.len() && (#[trigger] s[i]).sid@ == sid
}

/// The registry of remote controllers, keyed by their stable identifiers.
pub struct ControllerRegistry {
    /// The controllers, one per connected participant.
    pub controllers: Vec<Controller>,
}

impl ControllerRegistry {
    /// No two controllers carry the same identifier.
    pub open spec fn wf(&self) -> bool {
        forall|i: int, j: int|
            0 <= i < j < self.controllers@.len() ==> (#[trigger] self.controllers@[i]).sid@ != (
            #[trigger] self.controllers@[j]).sid@
    }

    /// An empty registry.
    pub fn new() -> (r: ControllerRegistry)
        ensures
            r.controllers@.len() == 0,
            r.wf(),
    {
        ControllerRegistry { controllers: Vec::new() }
    }

    /// Index of the controller with the identifier, if one is registered.
    fn find(&self, sid: &str) -> (r: Option<usize>)
        ensures
            match r {
                Some(i) => i < self.controllers@.len() && self.controllers@[i as int].sid@ == sid@,
                None => !has_sid(self.controllers@, sid@),
            },
    {
        let mut i: usize = 0;
        while i < self.controllers.len()
            invariant
                0 <= i <= self.controllers@.len(),
                forall|j: int| 0 <= j < i ==> (#[trigger] self.controllers@[j]).sid@ != sid@,
            decreases self.controllers@.len() - i,
        {
            if str_eq(self.controllers[i].sid.as_str(), sid) {
                return Some(i);
            }
            i = i + 1;
        }
        None
    }

    /// Registers a participant: a new, visible, enabled controller at the
    /// origin. A participant already registered is left as it is.
    pub fn add_controller(&mut self, sid: String, name: String, now_ms: u64, enabled: bool)
        requires
            old(self).wf(),
        ensures
            final(self).wf(),
            has_sid(old(self).controllers@, sid@) ==> final(self).controllers@ == old(
                self,
            ).controllers@,
            !has_sid(old(self).controllers@, sid@) ==> final(self).controllers@ == old(
                self,
            ).controllers@.push(
                Controller {
                    sid,
                    name,
                    position: Position { x: 0, y: 0 },
                    visible: true,
                    last_activity_ms: now_ms,
                    enabled,
                },
            ),
    {
        let found = self.find(sid.as_str());
        if found.is_some() {
            return ;
        }
        let controller = Controller {
            sid,
            name,
            position: Position { x: 0, y: 0 },
            visible: true,
            last_activity_ms: now_ms,
            enabled,
        };
        self.controllers.push(controller);
        proof {
            let s = self.controllers@;
            assert forall|i: int, j: int| 0 <= i < j < s.len() implies (#[trigger] s[i]).sid@ != (
            #[trigger] s[j]).sid@ by {
                if j == s.len() - 1 {
                    assert(!has_sid(old(self).controllers@, s[j].sid@));
                }
            }
        }
    }

    /// Removes the participant's controller; a no-op for an unknown
    /// identifier.
    pub fn remove_controller(&mut self, sid: &str)
        requires
            old(self).wf(),
        ensures
            final(self).wf(),
            !has_sid(old(self).controllers@, sid@) ==> final(self).controllers@ == old(
                self,
            ).controllers@,
            has_sid(old(self).controllers@, sid@) ==> exists|i: int|
                0 <= i < old(self).controllers@.len() && (#[trigger] old(
                    self,
                ).controllers@[i]).sid@ == sid@ && final(self).controllers@ == old(
                    self,
                ).controllers@.remove(i),
            !has_sid(final(self).controllers@, sid@),
    {
        let found = self.find(sid);
        match found {
            Some(i) => {
                self.controllers.remove(i);
                proof {
                    let before = old(self).controllers@;
                    let after = self.controllers@;
                    assert forall|a: int, b: int| 0 <= a < b < after.len() implies (
                    #[trigger] after[a]).sid@ != (#[trigger] after[b]).sid@ by {
                        let a0 = if a < i { a } else { a + 1 };
                        let b0 = if b < i { b } else { b + 1 };
                        assert(after[a] == before[a0]);
                        assert(after[b] == before[b0]);
                    }
                    assert forall|a: int| 0 <= a < after.len() implies (#[trigger] after[a]).sid@
                        != sid@ by {
                        let a0 = if a < i { a } else { a + 1 };
                        assert(after[a] == before[a0]);
                    }
                }
            },
            None => (),
        }
    }

    /// Records activity from the participant: the badge moves to the
    /// given position, becomes visible and its activity time is renewed.
    /// Unknown identifiers are ignored.
    pub fn handle_activity(&mut self, sid: &str, position: Position, now_ms: u64)
        requires
            old(self).wf(),
        ensures
            final(self).wf(),
            !has_sid(old(self).controllers@, sid@) ==> final(self).controllers@ == old(
                self,
            ).controllers@,
            has_sid(old(self).controllers@, sid@) ==> exists|i: int|
                0 <= i < old(self).controllers@.len() && (#[trigger] old(
                    self,
                ).controllers@[i]).sid@ == sid@ && final(self).controllers@ == old(
                    self,
                ).controllers@.update(
                    i,
                    Controller {
                        position,
                        visible: true,
                        last_activity_ms: now_ms,
                        ..old(self).controllers@[i]
                    },
                ),
    {
        let found = self.find(sid);
        match found {
            Some(i) => {
                self.controllers[i].position = position;
                self.controllers[i].visible = true;
                self.controllers[i].last_activity_ms = now_ms;
                proof {
                    let before = old(self).controllers@;
                    let after = self.controllers@;
                    assert(after =~= before.update(
                        i as int,
                        Controller {
                            position,
                            visible: true,
                            last_activity_ms: now_ms,
                            ..before[i as int]
                        },
                    ));
                    assert forall|a: int, b: int| 0 <= a < b < after.len() implies (
                    #[trigger] after[a]).sid@ != (#[trigger] after[b]).sid@ by {
                        assert(after[a].sid == before[a].sid);
                        assert(after[b].sid == before[b].sid);
                    }
                }
            },
            None => (),
        }
    }

    /// Shows or hides the participant's badge without moving it; unknown
    /// identifiers are ignored.
    pub fn set_controller_visible(&mut self, visible: bool, sid: &str)
        requires
            old(self).wf(),
        ensures
            final(self).wf(),
            !has_sid(old(self).controllers@, sid@) ==> final(self).controllers@ == old(
                self,
            ).controllers@,
            has_sid(old(self).controllers@, sid@) ==> exists|i: int|
                0 <= i < old(self).controllers@.len() && (#[trigger] old(
                    self,
                ).controllers@[i]).sid@ == sid@ && final(self).controllers@ == old(
                    self,
                ).controllers@.update(
                    i,
                    Controller { visible, ..old(self).controllers@[i] },
                ),
    {
        let found = self.find(sid);
        match found {
            Some(i) => {
                self.controllers[i].visible = visible;
                proof {
                    let before = old(self).controllers@;
                    let after = self.controllers@;
                    assert(after =~= before.update(
                        i as int,
                        Controller { visible, ..before[i as int] },
                    ));
                    assert forall|a: int, b: int| 0 <= a < b < after.len() implies (
                    #[trigger] after[a]).sid@ != (#[trigger] after[b]).sid@ by {
                        assert(after[a].sid == before[a].sid);
                        assert(after[b].sid == before[b].sid);
                    }
                }
            },
            None => (),
        }
    }

    /// Enables or disables input replay for every controller.
    pub fn set_controllers_enabled(&mut self, enabled: bool)
        requires
            old(self).wf(),
        ensures
            final(self).wf(),
            final(self).controllers@.len() == old(self).controllers@.len(),
            forall|i: int|
                0 <= i < old(self).controllers@.len() ==> final(self).controllers@[i]
                    == (Controller { enabled, ..#[trigger] old(self).controllers@[i] }),
    {
        let ghost before = self.controllers@;
        let mut i: usize = 0;
        while i < self.controllers.len()
            invariant
                0 <= i <= before.len(),
                self.controllers@.len() == before.len(),
                forall|j: int|
                    0 <= j < i ==> self.controllers@[j] == (Controller {
                        enabled,
                        ..#[trigger] before[j]
                    }),
                forall|j: int| i <= j < before.len() ==> self.controllers@[j] == #[trigger] before[j],
            decreases before.len() - i,
        {
            self.controllers[i].enabled = enabled;
            i = i + 1;
        }
        proof {
            assert forall|a: int, b: int| 0 <= a < b < self.controllers@.len() implies (
            #[trigger] self.controllers@[a]).sid@ != (#[trigger] self.controllers@[b]).sid@ by {
                assert(self.controllers@[a].sid == before[a].sid);
                assert(self.controllers@[b].sid == before[b].sid);
            }
        }
    }

    /// Hides every badge whose participant has been silent for the
    /// inactivity window.
    pub fn auto_hide(&mut self, now_ms: u64)
        requires
            old(self).wf(),
        ensures
            final(self).wf(),
            final(self).controllers@.len() == old(self).controllers@.len(),
            forall|i: int|
                0 <= i < old(self).controllers@.len() ==> final(self).controllers@[i] == (if old(
                    self,
                ).controllers@[i].last_activity_ms + CONTROLLER_HIDE_TIMEOUT_MS <= now_ms {
                    Controller { visible: false, ..#[trigger] old(self).controllers@[i] }
                } else {
                    old(self).controllers@[i]
                }),
    {
        let ghost before = self.controllers@;
        let mut i: usize = 0;
        while i < self.controllers.len()
            invariant
                0 <= i <= before.len(),
                self.controllers@.len() == before.len(),
                forall|j: int|
                    0 <= j < i ==> self.controllers@[j] == (if before[j].last_activity_ms
                        + CONTROLLER_HIDE_TIMEOUT_MS <= now_ms {
                        Controller { visible: false, ..#[trigger] before[j] }
                    } else {
                        before[j]
                    }),
                forall|j: int| i <= j < before.len() ==> self.controllers@[j] == #[trigger] before[j],
            decreases before.len() - i,
        {
            if now_ms >= CONTROLLER_HIDE_TIMEOUT_MS && self.controllers[i].last_activity_ms
                <= now_ms - CONTROLLER_HIDE_TIMEOUT_MS {
                self.controllers[i].visible = false;
            }
            i = i + 1;
        }
        proof {
            assert forall|a: int, b: int| 0 <= a < b < self.controllers@.len() implies (
            #[trigger] self.controllers@[a]).sid@ != (#[trigger] self.controllers@[b]).sid@ by {
                assert(self.controllers@[a].sid == before[a].sid);
                assert(self.controllers@[b].sid == before[b].sid);
            }
        }
    }

    /// How many controllers are registered.
    pub fn len(&self) -> (r: usize)
        ensures
            r == self.controllers@.len(),
    {
        self.controllers.len()
    }

    /// Whether a participant with the identifier is registered.
    pub fn contains(&self, sid: &str) -> (r: bool)
        ensures
            r == has_sid(self.controllers@, sid@),
    {
        self.find(sid).is_some()
    }
}

} // verus!
