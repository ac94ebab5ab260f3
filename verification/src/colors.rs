//! Color-role records: at most one colored role per user and community.
//!
//! The store mirrors the role the bot manages for each member; the
//! membership callback reads it to re-grant the role when a known user
//! rejoins.

use vstd::prelude::*;

verus! {

/// One color role: which role carries which color for a user in a
/// community.
pub struct ColorRow {
    pub role_id: u64,
    pub uid: u64,
    pub guid: u64,
    pub color: u32,
    pub role_name: String,
}

impl Clone for ColorRow {
    fn clone(&self) -> (r: Self)
        ensures
            r == *self,
    {
        ColorRow {
            role_id: self.role_id,
            uid: self.uid,
            guid: self.guid,
            color: self.color,
            role_name: self.role_name.clone(),
        }
    }
}

/// The store of color roles.
pub struct ColorStore {
    rows: Vec<ColorRow>,
}

impl View for ColorStore {
    type V = Seq<ColorRow>;

    closed spec fn view(&self) -> Seq<ColorRow> {
        self.rows@
    }
}

impl ColorStore {
    /// No two rows share a role identifier, and no user has two roles in
    /// one community.
    pub open spec fn wf(self) -> bool {
        &&& forall|i: int, j: int| 0 <= i < j < self@.len() ==> self@[i].role_id != self@[j].role_id
        &&& forall|i: int, j: int|
            0 <= i < j < self@.len() ==> !(self@[i].uid == self@[j].uid && self@[i].guid
                == self@[j].guid)
    }

    /// Creates an empty store.
    pub fn new() -> (r: Self)
        ensures
            r@ =~= Seq::<ColorRow>::empty(),
            r.wf(),
    {
        ColorStore { rows: Vec::new() }
    }

    /// Returns the color role of `uid` in `guid`, or nothing when none was
    /// ever assigned.
    pub fn get_color(&self, uid: u64, guid: u64) -> (r: Option<ColorRow>)
        requires
            self.wf(),
        ensures
            r matches Some(row) ==> row.uid == uid && row.guid == guid && exists|i: int|
                0 <= i < self@.len() && self@[i] == row,
            r is None ==> forall|i: int|
                0 <= i < self@.len() ==> !((#[trigger] self@[i]).uid == uid && self@[i].guid
                    == guid),
    {
        let n = self.rows.len();
        for i in 0..n
            invariant
                n == self@.len(),
                forall|j: int|
                    0 <= j < i ==> !((#[trigger] self@[j]).uid == uid && self@[j].guid == guid),
        {
            if self.rows[i].uid == uid && self.rows[i].guid == guid {
                let row = self.rows[i].clone();
                proof {
                    assert(self@[i as int] == row);
                }
                return Some(row);
            }
        }
        None
    }

    /// Records a newly created color role for a user who had none in the
    /// community yet.
    pub fn create_color_role(
        &mut self,
        role_id: u64,
        uid: u64,
        guid: u64,
        color: u32,
        name: String,
    )
        requires
            old(self).wf(),
            forall|i: int| 0 <= i < old(self)@.len() ==> (#[trigger] old(self)@[i]).role_id != role_id,
            forall|i: int|
                0 <= i < old(self)@.len() ==> !((#[trigger] old(self)@[i]).uid == uid && old(
                    self,
                )@[i].guid == guid),
        ensures
            final(self).wf(),
            final(self)@ == old(self)@.push(
                ColorRow { role_id: role_id, uid: uid, guid: guid, color: color, role_name: name },
            ),
    {
        self.rows.push(
            ColorRow { role_id: role_id, uid: uid, guid: guid, color: color, role_name: name },
        );
    }

    /// Repaints the role carrying `role_id`; every other field and row is
    /// untouched, and a store without the role is left as it is.
    pub fn update_color_role(&mut self, role_id: u64, color: u32)
        requires
            old(self).wf(),
        ensures
            final(self).wf(),
            final(self)@.len() == old(self)@.len(),
            forall|i: int|
                0 <= i < old(self)@.len() ==> final(self)@[i] == if (#[trigger] old(
                    self,
                )@[i]).role_id == role_id {
                    ColorRow { color: color, ..old(self)@[i] }
                } else {
                    old(self)@[i]
                },
    {
        let n = self.rows.len();
        for i in 0..n
            invariant
                n == self@.len() == old(self)@.len(),
                forall|j: int| i <= j < old(self)@.len() ==> self@[j] == old(self)@[j],
                forall|j: int|
                    0 <= j < i ==> self@[j] == if (#[trigger] old(self)@[j]).role_id == role_id {
                        ColorRow { color: color, ..old(self)@[j] }
                    } else {
                        old(self)@[j]
                    },
        {
            if self.rows[i].role_id == role_id {
                let row = self.rows[i].clone();
                self.rows.set(i, ColorRow { color: color, ..row });
            }
        }
        proof {
            assert forall|i: int, j: int| 0 <= i < j < self@.len() implies self@[i].role_id
                != self@[j].role_id && !(self@[i].uid == self@[j].uid && self@[i].guid
                == self@[j].guid) by {
                assert(self@[i].role_id == old(self)@[i].role_id);
                assert(self@[j].role_id == old(self)@[j].role_id);
                assert(self@[i].uid == old(self)@[i].uid && self@[i].guid == old(self)@[i].guid);
                assert(self@[j].uid == old(self)@[j].uid && self@[j].guid == old(self)@[j].guid);
            }
        }
    }
}

} // verus!
