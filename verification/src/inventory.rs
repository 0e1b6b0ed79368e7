//! The slice of the player's inventory this core touches: stored
//! experience and the level curve. Wider inventory mechanics belong to
//! a collaborator.

use vstd::prelude::*;

verus! {

/// Outcome of granting experience.
#[derive(Copy, Clone, PartialEq, Eq, Structural, Debug)]
pub enum AddExperienceResult {
    /// Experience stored, no threshold crossed.
    NoChange,
    /// A level threshold was crossed.
    LevelUp,
    /// Already at the top level; the grant may become a star bonus.
    AddStar,
}

/// Experience store and level curve. `exp_table[i]` is the experience
/// needed to advance from level `i`; experience counts within the
/// current level and the surplus carries over on a level-up.
pub struct Inventory {
    pub level: u16,
    pub experience: u16,
    pub exp_table: Vec<u16>,
}

/// Ghost image of the inventory.
pub struct InventoryView {
    pub level: u16,
    pub experience: u16,
    pub exp_table: Seq<u16>,
}

impl View for Inventory {
    type V = InventoryView;

    open spec fn view(&self) -> InventoryView {
        InventoryView { level: self.level, experience: self.experience, exp_table: self.exp_table@ }
    }
}

/// The experience grant rule: at the top of the curve the grant is
/// reported as a star bonus and nothing is stored; otherwise experience
/// accumulates saturating, and crossing the current level's threshold
/// advances the level by one, carrying the surplus over.
pub open spec fn spec_add_xp(inv: InventoryView, exp: u16) -> (InventoryView, AddExperienceResult) {
    if inv.level as int >= inv.exp_table.len() {
        (inv, AddExperienceResult::AddStar)
    } else {
        let gained = inv.experience.saturating_add(exp);
        let threshold = inv.exp_table[inv.level as int];
        if gained >= threshold {
            (
                InventoryView {
                    level: inv.level.saturating_add(1),
                    experience: (gained - threshold) as u16,
                    ..inv
                },
                AddExperienceResult::LevelUp,
            )
        } else {
            (InventoryView { experience: gained, ..inv }, AddExperienceResult::NoChange)
        }
    }
}

impl Inventory {
    pub fn new() -> (r: Inventory)
        ensures
            r@.level == 0,
            r@.experience == 0,
            r@.exp_table.len() == 0,
    {
        Inventory { level: 0, experience: 0, exp_table: Vec::new() }
    }

    /// Grant experience and report whether a level threshold was
    /// crossed. Experience arithmetic saturates, never wraps.
    pub fn add_xp(&mut self, exp: u16) -> (r: AddExperienceResult)
        ensures
            (final(self)@, r) == spec_add_xp(old(self)@, exp),
    {
        if (self.level as usize) >= self.exp_table.len() {
            AddExperienceResult::AddStar
        } else {
            let gained = self.experience.saturating_add(exp);
            let threshold = self.exp_table[self.level as usize];
            if gained >= threshold {
                self.level = self.level.saturating_add(1);
                self.experience = gained - threshold;
                AddExperienceResult::LevelUp
            } else {
                self.experience = gained;
                AddExperienceResult::NoChange
            }
        }
    }
}

} // verus!
