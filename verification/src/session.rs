//! The editing session: the decision logic behind the editor's events.
//! The shell around the library reads files, shows widgets and hands events
//! in; every state transition those events cause — which box is shown, what
//! the selected record becomes, what is written back to the buffer — is
//! decided and verified here.

use crate::error::Error;
use crate::input::{digits_of, digits_value, has_digit, parse_digits_u16, parse_digits_u64};
use crate::pocket::{
    item_changed_spec, normalize_spec, pocket_capacity_spec, quantity_changed_spec, set_slot_item,
    set_slot_quantity, Pocket,
};
use crate::record::{
    pokerus_step, stat_index_spec, stored_checksum, CreatureRecord, StatKind,
};
use crate::savefile::{
    location_offset_spec, location_valid, pocket_offset_spec, pocket_slot_spec, record_bytes_at,
    SaveFile, StorageLocation, BOX_COUNT,
};
use vstd::prelude::*;
use vstd::string::StringSliceAdditionalSpecFns;

verus! {

/// The two screens of the editor.
#[derive(Clone, Copy, Debug, PartialEq, Eq, Structural)]
pub enum Screen {
    /// Party and storage boxes.
    PartyBoxes,
    /// Bag pockets and trainer data.
    BagTrainer,
}

/// How a slot widget is shown: the slot holding the current selection is
/// `Selected`; the pointer state that makes a slot `Hovered` is the shell's.
#[derive(Clone, Copy, Debug, PartialEq, Eq, Structural)]
pub enum Status {
    Idle,
    Hovered,
    Selected,
}

/// The record currently being edited and where it lives in the buffer.
#[derive(Clone, Debug)]
pub struct Selection {
    /// Where the record came from and where a commit writes it back.
    pub location: StorageLocation,
    /// The working copy of the record.
    pub record: CreatureRecord,
}

/// One editing session: a save file, the box being shown, the screen, and
/// the record being edited, if any.
#[derive(Debug)]
pub struct Session {
    /// The save file under edit.
    pub save: SaveFile,
    /// Which screen the shell shows.
    pub screen: Screen,
    /// Index of the box currently shown, always in `0..BOX_COUNT`.
    pub box_index: usize,
    /// The record being edited, if one is selected.
    pub selected: Option<Selection>,
}

/// The next box index: one step right, wrapping past the last box to the
/// first.
pub open spec fn next_box_spec(i: int) -> int {
    if i < 13 {
        i + 1
    } else {
        0
    }
}

/// The previous box index: one step left, wrapping past the first box to
/// the last.
pub open spec fn prev_box_spec(i: int) -> int {
    if i > 0 {
        i - 1
    } else {
        13
    }
}

/// Stepping right and then left (or left and then right) over the box ring
/// returns to the starting box.
pub proof fn lemma_box_navigation_inverse(i: int)
    requires
        0 <= i < 14,
    ensures
        prev_box_spec(next_box_spec(i)) == i,
        next_box_spec(prev_box_spec(i)) == i,
        0 <= next_box_spec(i) < 14,
        0 <= prev_box_spec(i) < 14,
{
}

/// The level an input clamps to: at most 100, and no lower than the lowest
/// level the record's experience allows.
pub open spec fn clamp_level_spec(n: int, lowest: u8) -> u8 {
    if n > 100 {
        100u8
    } else if n < lowest {
        lowest
    } else {
        n as u8
    }
}

/// The friendship an input clamps to: at most 255.
pub open spec fn clamp_friendship_spec(n: int) -> u8 {
    if n > 255 {
        255u8
    } else {
        n as u8
    }
}

impl Session {
    /// Session validity: the save is well formed, the box index is in
    /// range, and any selected record has its format widths.
    pub open spec fn wf(&self) -> bool {
        &&& self.save.wf()
        &&& self.box_index < 14
        &&& (self.selected matches Some(sel) ==> sel.record@.wf())
    }

    /// A fresh session: nothing loaded, box zero, party screen, nothing
    /// selected.
    pub fn new() -> (s: Session)
        ensures
            s.wf(),
            !s.save.loaded(),
            s.box_index == 0,
            s.screen is PartyBoxes,
            s.selected is None,
    {
        Session {
            save: Default::default(),
            screen: Screen::PartyBoxes,
            box_index: 0,
            selected: None,
        }
    }

    /// Loads a save file from raw bytes, resetting the shown box and the
    /// selection; a buffer of the wrong length is refused and nothing
    /// changes but the selection state.
    pub fn load_bytes(&mut self, bytes: Vec<u8>) -> (r: Result<(), Error>)
        requires
            old(self).wf(),
        ensures
            final(self).wf(),
            match r {
                Ok(()) => {
                    &&& bytes@.len() == crate::savefile::SAVE_SIZE
                    &&& final(self).save@ == bytes@
                    &&& final(self).box_index == 0
                    &&& final(self).selected is None
                },
                Err(e) => {
                    &&& e == Error::FormatError
                    &&& bytes@.len() != crate::savefile::SAVE_SIZE
                    &&& final(self).save@ == old(self).save@
                },
            },
    {
        match SaveFile::load(bytes) {
            Ok(save) => {
                self.save = save;
                self.box_index = 0;
                self.selected = None;
                Ok(())
            },
            Err(e) => Err(e),
        }
    }

    /// How the slot at `loc` is shown: selected exactly when it holds the
    /// current selection.
    pub fn slot_status(&self, loc: StorageLocation) -> (st: Status)
        ensures
            st == (if self.selected matches Some(sel) && sel.location == loc {
                Status::Selected
            } else {
                Status::Idle
            }),
    {
        match &self.selected {
            Some(sel) => if sel.location == loc {
                Status::Selected
            } else {
                Status::Idle
            },
            None => Status::Idle,
        }
    }

    /// Shows the next box, wrapping from the last to the first; does
    /// nothing while the boxes hold no creature.
    pub fn increment_box(&mut self)
        requires
            old(self).wf(),
        ensures
            final(self).wf(),
            final(self).save@ == old(self).save@,
            final(self).selected == old(self).selected,
            final(self).screen == old(self).screen,
            old(self).save.loaded() && !old(self).save.is_pc_empty_spec() ==> final(self).box_index == next_box_spec(old(self).box_index as int),
            !old(self).save.loaded() || old(self).save.is_pc_empty_spec() ==> final(self).box_index == old(self).box_index,
    {
        if !self.save.is_pc_empty() {
            if self.box_index < BOX_COUNT - 1 {
                self.box_index = self.box_index + 1;
            } else {
                self.box_index = 0;
            }
        }
    }

    /// Shows the previous box, wrapping from the first to the last; does
    /// nothing while the boxes hold no creature.
    pub fn decrement_box(&mut self)
        requires
            old(self).wf(),
        ensures
            final(self).wf(),
            final(self).save@ == old(self).save@,
            final(self).selected == old(self).selected,
            final(self).screen == old(self).screen,
            old(self).save.loaded() && !old(self).save.is_pc_empty_spec() ==> final(self).box_index == prev_box_spec(old(self).box_index as int),
            !old(self).save.loaded() || old(self).save.is_pc_empty_spec() ==> final(self).box_index == old(self).box_index,
    {
        if !self.save.is_pc_empty() {
            if self.box_index > 0 {
                self.box_index = self.box_index - 1;
            } else {
                self.box_index = BOX_COUNT - 1;
            }
        }
    }

    /// Selects the record at `location` for editing, with `record` as the
    /// working copy.
    pub fn select(&mut self, location: StorageLocation, record: CreatureRecord)
        requires
            old(self).wf(),
            record@.wf(),
        ensures
            final(self).wf(),
            final(self).save@ == old(self).save@,
            final(self).box_index == old(self).box_index,
            final(self).selected matches Some(sel) && sel.location == location && sel.record@
                == record@,
    {
        self.selected = Some(Selection { location, record });
    }

    /// Drops the selection.
    pub fn clear_selection(&mut self)
        requires
            old(self).wf(),
        ensures
            final(self).wf(),
            final(self).save@ == old(self).save@,
            final(self).box_index == old(self).box_index,
            final(self).selected is None,
    {
        self.selected = None;
    }

    /// Commits the selected record: recomputes its checksum field and
    /// writes its encoding at its location, leaving every other buffer byte
    /// unchanged.  Without a selection nothing happens.
    pub fn commit_selected(&mut self) -> (r: Result<(), Error>)
        requires
            old(self).wf(),
        ensures
            final(self).wf(),
            final(self).box_index == old(self).box_index,
            old(self).selected is None ==> r is Ok && final(self).save@ == old(self).save@,
            old(self).selected matches Some(sel) ==> match r {
                Ok(()) => {
                    &&& old(self).save.loaded()
                    &&& location_valid(sel.location)
                    &&& final(self).save@.len() == old(self).save@.len()
                    &&& record_bytes_at(final(self).save@, sel.location)
                        == crate::record::encode_spec(sel.record@)
                    &&& forall|j: int|
                        0 <= j < old(self).save@.len() && !(location_offset_spec(sel.location) <= j
                            < location_offset_spec(sel.location) + 80)
                            ==> final(self).save@[j] == old(self).save@[j]
                    &&& final(self).selected matches Some(sel2) && sel2.location == sel.location
                        && sel2.record@ == (crate::record::CreatureRecordView {
                        checksum: stored_checksum(sel.record@),
                        ..sel.record@
                    })
                },
                Err(e) => {
                    &&& final(self).save@ == old(self).save@
                    &&& {
                        ||| (e == Error::NoFileOpened && !old(self).save.loaded())
                        ||| (e == Error::OutOfBounds && old(self).save.loaded()
                            && !location_valid(sel.location))
                    }
                },
            },
    {
        match &mut self.selected {
            Some(sel) => {
                sel.record.update_checksum();
                proof {
                    crate::record::lemma_encode_ignores_checksum(
                        old(self).selected->Some_0.record@,
                        stored_checksum(old(self).selected->Some_0.record@),
                    );
                }
                self.save.save_pokemon(sel.location, &sel.record)
            },
            None => Ok(()),
        }
    }

    /// One click of the infection cycle on the selected record.
    pub fn change_pokerus_status(&mut self)
        requires
            old(self).wf(),
        ensures
            final(self).wf(),
            final(self).save@ == old(self).save@,
            final(self).box_index == old(self).box_index,
            old(self).selected is None ==> final(self).selected == old(self).selected,
            old(self).selected matches Some(sel) ==> final(self).selected matches Some(sel2)
                && sel2.location == sel.location && sel2.record@
                == (crate::record::CreatureRecordView {
                pokerus: pokerus_step(sel.record@.pokerus),
                ..sel.record@
            }),
    {
        match &mut self.selected {
            Some(sel) => sel.record.change_pokerus_status(),
            None => {},
        }
    }

    /// Applies a typed level to the selected record: the digits of the
    /// input, clamped to `lowest_level..=100`.  An input without digits, or
    /// one whose number does not fit in 64 bits, changes nothing; `lowest
    /// _level` is the lowest level the record's experience allows, which the
    /// species growth table supplies.
    pub fn level_input_changed(&mut self, input: &str, lowest_level: u8)
        requires
            old(self).wf(),
            lowest_level <= 100,
        ensures
            final(self).wf(),
            final(self).save@ == old(self).save@,
            final(self).box_index == old(self).box_index,
            old(self).selected is None ==> final(self).selected == old(self).selected,
            old(self).selected matches Some(sel) ==> {
                let d = digits_of(input.spec_bytes());
                if d.len() > 0 && digits_value(d) <= u64::MAX {
                    final(self).selected matches Some(sel2) && sel2.location == sel.location
                        && sel2.record@ == (crate::record::CreatureRecordView {
                        level: clamp_level_spec(digits_value(d), lowest_level),
                        ..sel.record@
                    })
                } else {
                    final(self).selected == old(self).selected
                }
            },
    {
        match &mut self.selected {
            Some(sel) => {
                match parse_digits_u64(input) {
                    Some(n) => {
                        let level: u8 = if n > 100 {
                            100
                        } else if n < lowest_level as u64 {
                            lowest_level
                        } else {
                            n as u8
                        };
                        sel.record.set_level(level);
                    },
                    None => {},
                }
            },
            None => {},
        }
    }

    /// Applies a typed friendship value to the selected record: the digits
    /// of the input, clamped to 255.  An input without digits, or one whose
    /// number does not fit in 64 bits, changes nothing.
    pub fn friendship_input_changed(&mut self, input: &str)
        requires
            old(self).wf(),
        ensures
            final(self).wf(),
            final(self).save@ == old(self).save@,
            final(self).box_index == old(self).box_index,
            old(self).selected is None ==> final(self).selected == old(self).selected,
            old(self).selected matches Some(sel) ==> {
                let d = digits_of(input.spec_bytes());
                if d.len() > 0 && digits_value(d) <= u64::MAX {
                    final(self).selected matches Some(sel2) && sel2.location == sel.location
                        && sel2.record@ == (crate::record::CreatureRecordView {
                        friendship: clamp_friendship_spec(digits_value(d)),
                        ..sel.record@
                    })
                } else {
                    final(self).selected == old(self).selected
                }
            },
    {
        match &mut self.selected {
            Some(sel) => {
                match parse_digits_u64(input) {
                    Some(n) => {
                        let f: u8 = if n > 255 {
                            255
                        } else {
                            n as u8
                        };
                        sel.record.set_friendship(f);
                    },
                    None => {},
                }
            },
            None => {},
        }
    }

    /// Applies a typed individual value for one stat to the selected
    /// record, clamped to 31.  An input with digits too large for 16 bits
    /// changes nothing; an input with no digits at all sets the stat to 0.
    pub fn iv_input_changed(&mut self, stat: StatKind, input: &str)
        requires
            old(self).wf(),
        ensures
            final(self).wf(),
            final(self).save@ == old(self).save@,
            final(self).box_index == old(self).box_index,
            old(self).selected is None ==> final(self).selected == old(self).selected,
            old(self).selected matches Some(sel) ==> {
                let d = digits_of(input.spec_bytes());
                if d.len() > 0 && digits_value(d) > u16::MAX {
                    final(self).selected == old(self).selected
                } else {
                    let n: u16 = if d.len() == 0 {
                        0u16
                    } else {
                        digits_value(d) as u16
                    };
                    final(self).selected matches Some(sel2) && sel2.location == sel.location
                        && sel2.record@ == (crate::record::CreatureRecordView {
                        ivs: sel.record@.ivs.update(
                            stat_index_spec(stat),
                            if n > 31 {
                                31u8
                            } else {
                                n as u8
                            },
                        ),
                        ..sel.record@
                    })
                }
            },
    {
        match &mut self.selected {
            Some(sel) => {
                match parse_digits_u16(input) {
                    Some(n) => sel.record.update_iv(stat, n),
                    None => {
                        if !has_digit(input) {
                            sel.record.update_iv(stat, 0);
                        }
                    },
                }
            },
            None => {},
        }
    }

    /// Applies a typed effort value for one stat to the selected record,
    /// clamped to 252.  An input with digits too large for 16 bits changes
    /// nothing; an input with no digits at all sets the stat to 0.
    pub fn ev_input_changed(&mut self, stat: StatKind, input: &str)
        requires
            old(self).wf(),
        ensures
            final(self).wf(),
            final(self).save@ == old(self).save@,
            final(self).box_index == old(self).box_index,
            old(self).selected is None ==> final(self).selected == old(self).selected,
            old(self).selected matches Some(sel) ==> {
                let d = digits_of(input.spec_bytes());
                if d.len() > 0 && digits_value(d) > u16::MAX {
                    final(self).selected == old(self).selected
                } else {
                    let n: u16 = if d.len() == 0 {
                        0u16
                    } else {
                        digits_value(d) as u16
                    };
                    final(self).selected matches Some(sel2) && sel2.location == sel.location
                        && sel2.record@ == (crate::record::CreatureRecordView {
                        evs: sel.record@.evs.update(
                            stat_index_spec(stat),
                            if n > 252 {
                                252u8
                            } else {
                                n as u8
                            },
                        ),
                        ..sel.record@
                    })
                }
            },
    {
        match &mut self.selected {
            Some(sel) => {
                match parse_digits_u16(input) {
                    Some(n) => sel.record.update_ev(stat, n),
                    None => {
                        if !has_digit(input) {
                            sel.record.update_ev(stat, 0);
                        }
                    },
                }
            },
            None => {},
        }
    }

    /// Sets the species of the selected, non-empty record; what an empty
    /// slot grows into is generated from the species table by the shell and
    /// put in place with `select`.
    pub fn species_selected(&mut self, species: u16)
        requires
            old(self).wf(),
        ensures
            final(self).wf(),
            final(self).save@ == old(self).save@,
            final(self).box_index == old(self).box_index,
            old(self).selected is None ==> final(self).selected == old(self).selected,
            old(self).selected matches Some(sel) ==> {
                if sel.record@.species == 0 {
                    final(self).selected == old(self).selected
                } else {
                    final(self).selected matches Some(sel2) && sel2.location == sel.location
                        && sel2.record@ == (crate::record::CreatureRecordView {
                        species: species,
                        ..sel.record@
                    })
                }
            },
    {
        match &mut self.selected {
            Some(sel) => {
                if !sel.record.is_empty() {
                    sel.record.set_species(species);
                }
            },
            None => {},
        }
    }

    /// Gives the selected record a held item.
    pub fn held_item_selected(&mut self, item: u16)
        requires
            old(self).wf(),
        ensures
            final(self).wf(),
            final(self).save@ == old(self).save@,
            final(self).box_index == old(self).box_index,
            old(self).selected is None ==> final(self).selected == old(self).selected,
            old(self).selected matches Some(sel) ==> final(self).selected matches Some(sel2)
                && sel2.location == sel.location && sel2.record@
                == (crate::record::CreatureRecordView { held_item: item, ..sel.record@ }),
    {
        match &mut self.selected {
            Some(sel) => sel.record.give_item(item),
            None => {},
        }
    }

    /// Puts a move into a slot of the selected record, with its power
    /// points filled to the move's maximum from the move table.
    pub fn move_selected(&mut self, slot: usize, id: u16, max_pp: u8)
        requires
            old(self).wf(),
            slot < 4,
        ensures
            final(self).wf(),
            final(self).save@ == old(self).save@,
            final(self).box_index == old(self).box_index,
            old(self).selected is None ==> final(self).selected == old(self).selected,
            old(self).selected matches Some(sel) ==> final(self).selected matches Some(sel2)
                && sel2.location == sel.location && sel2.record@
                == (crate::record::CreatureRecordView {
                moves: sel.record@.moves.update(slot as int, id),
                pp: sel.record@.pp.update(slot as int, max_pp),
                ..sel.record@
            }),
    {
        match &mut self.selected {
            Some(sel) => sel.record.set_move(slot, id, max_pp),
            None => {},
        }
    }

    /// Re-derives the selected record's personality value so it selects
    /// nature `n`.
    pub fn nature_selected(&mut self, n: u8)
        requires
            old(self).wf(),
            n < 25,
        ensures
            final(self).wf(),
            final(self).save@ == old(self).save@,
            final(self).box_index == old(self).box_index,
            old(self).selected is None ==> final(self).selected == old(self).selected,
            old(self).selected matches Some(sel) ==> final(self).selected matches Some(sel2)
                && sel2.location == sel.location && crate::record::nature_of(
                sel2.record@.personality_value,
            ) == n && sel2.record@ == (crate::record::CreatureRecordView {
                personality_value: sel2.record@.personality_value,
                ..sel.record@
            }),
    {
        match &mut self.selected {
            Some(sel) => sel.record.set_nature(n),
            None => {},
        }
    }

    /// Replaces the item of slot `i` of a pocket and writes the pocket
    /// back, normalized: picking the empty item clears the slot, giving an
    /// item to an empty slot starts its count at one.
    pub fn pocket_item_changed(&mut self, kind: Pocket, i: usize, item: u16) -> (r: Result<
        (),
        Error,
    >)
        requires
            old(self).wf(),
            i < pocket_capacity_spec(kind),
        ensures
            final(self).wf(),
            final(self).box_index == old(self).box_index,
            final(self).selected == old(self).selected,
            match r {
                Ok(()) => {
                    &&& old(self).save.loaded()
                    &&& final(self).save@.len() == old(self).save@.len()
                    &&& pocket_slot_spec(final(self).save@, kind, i as int) == normalize_spec(
                        item_changed_spec(pocket_slot_spec(old(self).save@, kind, i as int), item),
                    )
                    &&& forall|k: int|
                        0 <= k < pocket_capacity_spec(kind) && k != i
                            ==> #[trigger] pocket_slot_spec(final(self).save@, kind, k)
                            == normalize_spec(pocket_slot_spec(old(self).save@, kind, k))
                    &&& forall|j: int|
                        0 <= j < old(self).save@.len() && !(pocket_offset_spec(kind) <= j
                            < pocket_offset_spec(kind) + 4 * pocket_capacity_spec(kind))
                            ==> final(self).save@[j] == old(self).save@[j]
                },
                Err(e) => {
                    &&& final(self).save@ == old(self).save@
                    &&& e == Error::NoFileOpened
                    &&& !old(self).save.loaded()
                },
            },
    {
        let mut slots = match self.save.pocket(kind) {
            Ok(slots) => slots,
            Err(e) => {
                return Err(e);
            },
        };
        set_slot_item(&mut slots, i, item);
        match self.save.save_pocket(kind, &slots) {
            Ok(()) => Ok(()),
            Err(e) => Err(e),
        }
    }

    /// Applies a typed quantity to slot `i` of a pocket and writes the
    /// pocket back, normalized: counts cap at 99 and a zero count clears
    /// the slot.  An input without digits, or with a number too large for
    /// 16 bits, changes nothing.
    pub fn pocket_quantity_changed(&mut self, kind: Pocket, i: usize, input: &str) -> (r: Result<
        (),
        Error,
    >)
        requires
            old(self).wf(),
            i < pocket_capacity_spec(kind),
        ensures
            final(self).wf(),
            final(self).box_index == old(self).box_index,
            final(self).selected == old(self).selected,
            ({
                let d = digits_of(input.spec_bytes());
                d.len() == 0 || digits_value(d) > u16::MAX
            }) ==> r is Ok && final(self).save@ == old(self).save@,
            ({
                let d = digits_of(input.spec_bytes());
                d.len() > 0 && digits_value(d) <= u16::MAX
            }) ==> match r {
                Ok(()) => {
                    let n = digits_value(digits_of(input.spec_bytes())) as u16;
                    &&& old(self).save.loaded()
                    &&& final(self).save@.len() == old(self).save@.len()
                    &&& pocket_slot_spec(final(self).save@, kind, i as int) == normalize_spec(
                        quantity_changed_spec(pocket_slot_spec(old(self).save@, kind, i as int), n),
                    )
                    &&& forall|k: int|
                        0 <= k < pocket_capacity_spec(kind) && k != i
                            ==> #[trigger] pocket_slot_spec(final(self).save@, kind, k)
                            == normalize_spec(pocket_slot_spec(old(self).save@, kind, k))
                    &&& forall|j: int|
                        0 <= j < old(self).save@.len() && !(pocket_offset_spec(kind) <= j
                            < pocket_offset_spec(kind) + 4 * pocket_capacity_spec(kind))
                            ==> final(self).save@[j] == old(self).save@[j]
                },
                Err(e) => {
                    &&& final(self).save@ == old(self).save@
                    &&& e == Error::NoFileOpened
                    &&& !old(self).save.loaded()
                },
            },
    {
        let n = match parse_digits_u16(input) {
            Some(n) => n,
            None => {
                return Ok(());
            },
        };
        let mut slots = match self.save.pocket(kind) {
            Ok(slots) => slots,
            Err(e) => {
                return Err(e);
            },
        };
        set_slot_quantity(&mut slots, i, n);
        match self.save.save_pocket(kind, &slots) {
            Ok(()) => Ok(()),
            Err(e) => Err(e),
        }
    }
}

} // verus!
