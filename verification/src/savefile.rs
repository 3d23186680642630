//! The save-file model: a fixed-size byte buffer owning the party, the
//! storage boxes and the item pockets at fixed offsets.  Loading checks the
//! format's length and keeps the bytes verbatim; every read decodes from the
//! buffer, and every write re-encodes only the touched byte range, so
//! untouched bytes round-trip to disk bit-identically.

use crate::bytes::{copy_range, le16_at, lemma_le16_roundtrip, push_u16, read_u32_at, splice_range};
use crate::error::Error;
use crate::pocket::{normalize_slot, normalize_spec, pocket_capacity_spec, ItemSlot, Pocket};
use crate::record::{decode, decode_spec, encode, encode_spec, CreatureRecord, RECORD_SIZE};
use vstd::prelude::*;

verus! {

/// Total length of a save file in bytes.
pub const SAVE_SIZE: usize = 0x20000;

/// Offset of the trainer's name (7 bytes).
pub const TRAINER_NAME_OFFSET: usize = 0x0000;

/// Offset of the trainer's id (4 bytes).
pub const TRAINER_ID_OFFSET: usize = 0x0008;

/// Offset of the first party slot.
pub const PARTY_OFFSET: usize = 0x0500;

/// Number of party slots.
pub const PARTY_SLOTS: usize = 6;

/// Offset of the first slot of the first storage box.
pub const BOX_OFFSET: usize = 0x1000;

/// Number of storage boxes.
pub const BOX_COUNT: usize = 14;

/// Number of slots in each storage box.
pub const BOX_CAPACITY: usize = 30;

/// Where a creature record physically lives, for routing a mutated record
/// back to its byte range.
#[derive(Clone, Copy, Debug, PartialEq, Eq, Structural)]
pub enum StorageLocation {
    /// Party slot `0..6`.
    Party(usize),
    /// Box `0..14`, slot `0..30`.
    PC(usize, usize),
}

/// Whether a location's indices are within the containers' bounds.
pub open spec fn location_valid(loc: StorageLocation) -> bool {
    match loc {
        StorageLocation::Party(slot) => slot < 6,
        StorageLocation::PC(b, slot) => b < 14 && slot < 30,
    }
}

/// The buffer offset of the record a location names.
pub open spec fn location_offset_spec(loc: StorageLocation) -> int {
    match loc {
        StorageLocation::Party(slot) => 0x0500 + 80 * slot,
        StorageLocation::PC(b, slot) => 0x1000 + 80 * (30 * b + slot),
    }
}

/// The buffer offset of a pocket's slot table.
pub open spec fn pocket_offset_spec(p: Pocket) -> int {
    match p {
        Pocket::Items => 0x0700,
        Pocket::Pokeballs => 0x0778,
        Pocket::Berries => 0x07B8,
        Pocket::Tms => 0x0870,
        Pocket::Key => 0x0970,
    }
}

/// The bytes of the record a location names.
pub open spec fn record_bytes_at(b: Seq<u8>, loc: StorageLocation) -> Seq<u8> {
    b.subrange(location_offset_spec(loc), location_offset_spec(loc) + 80)
}

/// The slot `i` of pocket `p` as stored in buffer `b`.
pub open spec fn pocket_slot_spec(b: Seq<u8>, p: Pocket, i: int) -> ItemSlot {
    ItemSlot {
        item: le16_at(b, pocket_offset_spec(p) + 4 * i) as u16,
        quantity: le16_at(b, pocket_offset_spec(p) + 4 * i + 2) as u16,
    }
}

fn pocket_offset(p: Pocket) -> (off: usize)
    ensures
        off == pocket_offset_spec(p),
{
    match p {
        Pocket::Items => 0x0700,
        Pocket::Pokeballs => 0x0778,
        Pocket::Berries => 0x07B8,
        Pocket::Tms => 0x0870,
        Pocket::Key => 0x0970,
    }
}

/// The save-file model.  Empty until a buffer is loaded; loading replaces
/// the whole buffer.
#[derive(Debug)]
pub struct SaveFile {
    data: Vec<u8>,
}

impl View for SaveFile {
    type V = Seq<u8>;

    closed spec fn view(&self) -> Seq<u8> {
        self.data@
    }
}

impl Default for SaveFile {
    /// The empty model: no buffer loaded.
    fn default() -> (s: SaveFile)
        ensures
            s@.len() == 0,
            s.wf(),
    {
        SaveFile { data: Vec::new() }
    }
}

impl SaveFile {
    /// Either no buffer is loaded, or the buffer has the format's length.
    pub open spec fn wf(&self) -> bool {
        self@.len() == 0 || self@.len() == SAVE_SIZE
    }

    /// Whether a buffer is loaded.
    pub open spec fn loaded(&self) -> bool {
        self@.len() == SAVE_SIZE
    }

    /// Loads a save file from its raw bytes, which must have exactly the
    /// format's length; the buffer is kept verbatim.
    pub fn load(bytes: Vec<u8>) -> (r: Result<SaveFile, Error>)
        ensures
            match r {
                Ok(s) => s@ == bytes@ && s.loaded() && s.wf(),
                Err(e) => e == Error::FormatError && bytes@.len() != SAVE_SIZE,
            },
    {
        if bytes.len() == SAVE_SIZE {
            Ok(SaveFile { data: bytes })
        } else {
            Err(Error::FormatError)
        }
    }

    /// Byte identity: loading keeps the input bytes verbatim (`load` gives a
    /// model whose view is the input) and saving returns the model's view
    /// verbatim (`raw_data`), so a load followed immediately by a save with
    /// no mutation in between writes back exactly the bytes that were read.
    pub proof fn lemma_byte_identity(bytes: Seq<u8>, loaded_view: Seq<u8>, written: Seq<u8>)
        requires
            loaded_view == bytes,
            written == loaded_view,
        ensures
            written == bytes,
    {
    }

    /// Whether no buffer is loaded.
    pub fn is_empty(&self) -> (e: bool)
        requires
            self.wf(),
        ensures
            e == !self.loaded(),
    {
        self.data.len() == 0
    }

    /// The raw bytes of the buffer, verbatim, for writing back to disk.
    pub fn raw_data(&self) -> (r: Vec<u8>)
        ensures
            r@ == self@,
    {
        copy_range(&self.data, 0, self.data.len())
    }

    /// The trainer's name: 7 bytes, empty when no buffer is loaded.
    pub fn ot_name(&self) -> (r: Vec<u8>)
        requires
            self.wf(),
        ensures
            self.loaded() ==> r@ == self@.subrange(0, 7),
            !self.loaded() ==> r@.len() == 0,
    {
        if self.data.len() == 0 {
            Vec::new()
        } else {
            copy_range(&self.data, TRAINER_NAME_OFFSET, 7)
        }
    }

    /// The trainer's id, zero when no buffer is loaded.
    pub fn ot_id(&self) -> (r: u32)
        requires
            self.wf(),
        ensures
            self.loaded() ==> r == crate::bytes::le32_at(self@, TRAINER_ID_OFFSET as int),
            !self.loaded() ==> r == 0,
    {
        if self.data.len() == 0 {
            0
        } else {
            read_u32_at(&self.data, TRAINER_ID_OFFSET)
        }
    }

    /// Reads the byte at `offset`.
    pub fn read_u8(&self, offset: usize) -> (r: Result<u8, Error>)
        ensures
            match r {
                Ok(v) => offset + 1 <= self@.len() && v == self@[offset as int],
                Err(e) => e == Error::OutOfBounds && offset + 1 > self@.len(),
            },
    {
        if offset < self.data.len() {
            Ok(self.data[offset])
        } else {
            Err(Error::OutOfBounds)
        }
    }

    /// Reads the little-endian 16-bit word at `offset`.
    pub fn read_u16(&self, offset: usize) -> (r: Result<u16, Error>)
        ensures
            match r {
                Ok(v) => offset + 2 <= self@.len() && v == le16_at(self@, offset as int),
                Err(e) => e == Error::OutOfBounds && offset + 2 > self@.len(),
            },
    {
        if offset < self.data.len() && self.data.len() - offset >= 2 {
            Ok(crate::bytes::read_u16_at(&self.data, offset))
        } else {
            Err(Error::OutOfBounds)
        }
    }

    /// Reads the little-endian 32-bit word at `offset`.
    pub fn read_u32(&self, offset: usize) -> (r: Result<u32, Error>)
        ensures
            match r {
                Ok(v) => offset + 4 <= self@.len() && v == crate::bytes::le32_at(
                    self@,
                    offset as int,
                ),
                Err(e) => e == Error::OutOfBounds && offset + 4 > self@.len(),
            },
    {
        if offset < self.data.len() && self.data.len() - offset >= 4 {
            Ok(read_u32_at(&self.data, offset))
        } else {
            Err(Error::OutOfBounds)
        }
    }

    /// Copies `len` bytes starting at `offset`.
    pub fn read_bytes(&self, offset: usize, len: usize) -> (r: Result<Vec<u8>, Error>)
        ensures
            match r {
                Ok(v) => offset + len <= self@.len() && v@ == self@.subrange(
                    offset as int,
                    offset as int + len as int,
                ),
                Err(e) => e == Error::OutOfBounds && offset + len > self@.len(),
            },
    {
        if offset <= self.data.len() && self.data.len() - offset >= len {
            Ok(copy_range(&self.data, offset, len))
        } else {
            Err(Error::OutOfBounds)
        }
    }

    /// Overwrites the byte at `offset`, leaving every other byte unchanged.
    pub fn write_u8(&mut self, offset: usize, v: u8) -> (r: Result<(), Error>)
        ensures
            match r {
                Ok(()) => {
                    &&& offset + 1 <= old(self)@.len()
                    &&& final(self)@ == old(self)@.update(offset as int, v)
                },
                Err(e) => {
                    &&& e == Error::OutOfBounds
                    &&& offset + 1 > old(self)@.len()
                    &&& final(self)@ == old(self)@
                },
            },
    {
        if offset < self.data.len() {
            self.data.set(offset, v);
            Ok(())
        } else {
            Err(Error::OutOfBounds)
        }
    }

    /// Overwrites the little-endian 16-bit word at `offset`, leaving every
    /// other byte unchanged.
    pub fn write_u16(&mut self, offset: usize, v: u16) -> (r: Result<(), Error>)
        ensures
            match r {
                Ok(()) => {
                    &&& offset + 2 <= old(self)@.len()
                    &&& final(self)@ == old(self)@.update(offset as int, (v % 0x100) as u8).update(
                        offset as int + 1,
                        (v / 0x100) as u8,
                    )
                },
                Err(e) => {
                    &&& e == Error::OutOfBounds
                    &&& offset + 2 > old(self)@.len()
                    &&& final(self)@ == old(self)@
                },
            },
    {
        if offset < self.data.len() && self.data.len() - offset >= 2 {
            self.data.set(offset, (v % 0x100) as u8);
            self.data.set(offset + 1, (v / 0x100) as u8);
            Ok(())
        } else {
            Err(Error::OutOfBounds)
        }
    }

    /// Overwrites the little-endian 32-bit word at `offset`, leaving every
    /// other byte unchanged.
    pub fn write_u32(&mut self, offset: usize, v: u32) -> (r: Result<(), Error>)
        ensures
            match r {
                Ok(()) => {
                    &&& offset + 4 <= old(self)@.len()
                    &&& final(self)@.len() == old(self)@.len()
                    &&& final(self)@.subrange(offset as int, offset as int + 4)
                        == crate::bytes::le32_bytes(v)
                    &&& forall|j: int|
                        0 <= j < old(self)@.len() && !(offset <= j < offset + 4)
                            ==> final(self)@[j] == old(self)@[j]
                },
                Err(e) => {
                    &&& e == Error::OutOfBounds
                    &&& offset + 4 > old(self)@.len()
                    &&& final(self)@ == old(self)@
                },
            },
    {
        if offset < self.data.len() && self.data.len() - offset >= 4 {
            let mut word: Vec<u8> = Vec::new();
            crate::bytes::push_u32(&mut word, v);
            splice_range(&mut self.data, offset, &word);
            proof {
                assert(self@.subrange(offset as int, offset as int + 4)
                    =~= crate::bytes::le32_bytes(v));
            }
            Ok(())
        } else {
            Err(Error::OutOfBounds)
        }
    }

    /// Overwrites `src.len()` bytes starting at `offset`, leaving every
    /// other byte unchanged.  The buffer never grows.
    pub fn write_bytes(&mut self, offset: usize, src: &Vec<u8>) -> (r: Result<(), Error>)
        ensures
            match r {
                Ok(()) => {
                    &&& offset + src@.len() <= old(self)@.len()
                    &&& final(self)@.len() == old(self)@.len()
                    &&& final(self)@.subrange(offset as int, offset as int + src@.len() as int)
                        == src@
                    &&& forall|j: int|
                        0 <= j < old(self)@.len() && !(offset <= j < offset + src@.len())
                            ==> final(self)@[j] == old(self)@[j]
                },
                Err(e) => {
                    &&& e == Error::OutOfBounds
                    &&& offset + src@.len() > old(self)@.len()
                    &&& final(self)@ == old(self)@
                },
            },
    {
        if offset <= self.data.len() && self.data.len() - offset >= src.len() {
            splice_range(&mut self.data, offset, src);
            Ok(())
        } else {
            Err(Error::OutOfBounds)
        }
    }

    /// The six party slots, decoded; empty slots decode to empty records.
    pub fn get_party(&self) -> (r: Result<Vec<CreatureRecord>, Error>)
        requires
            self.wf(),
        ensures
            match r {
                Ok(v) => {
                    &&& self.loaded()
                    &&& v@.len() == 6
                    &&& forall|i: int|
                        0 <= i < 6 ==> (#[trigger] v@[i])@ == decode_spec(
                            record_bytes_at(self@, StorageLocation::Party(i as usize)),
                        )
                    &&& forall|i: int| 0 <= i < 6 ==> (#[trigger] v@[i])@.wf()
                },
                Err(e) => e == Error::NoFileOpened && !self.loaded(),
            },
    {
        if self.data.len() == 0 {
            return Err(Error::NoFileOpened);
        }
        let mut out: Vec<CreatureRecord> = Vec::new();
        let mut i: usize = 0;
        while i < 6
            invariant
                i <= 6,
                self.loaded(),
                out@.len() == i,
                forall|k: int|
                    0 <= k < i ==> (#[trigger] out@[k])@ == decode_spec(
                        record_bytes_at(self@, StorageLocation::Party(k as usize)),
                    ),
                forall|k: int| 0 <= k < i ==> (#[trigger] out@[k])@.wf(),
            decreases 6 - i,
        {
            let bytes = copy_range(&self.data, PARTY_OFFSET + i * RECORD_SIZE, RECORD_SIZE);
            let rec = decode(&bytes);
            out.push(rec);
            i = i + 1;
        }
        Ok(out)
    }

    /// The thirty slots of box `index`, decoded.
    pub fn pc_box(&self, index: usize) -> (r: Result<Vec<CreatureRecord>, Error>)
        requires
            self.wf(),
        ensures
            match r {
                Ok(v) => {
                    &&& self.loaded()
                    &&& index < 14
                    &&& v@.len() == 30
                    &&& forall|j: int|
                        0 <= j < 30 ==> (#[trigger] v@[j])@ == decode_spec(
                            record_bytes_at(self@, StorageLocation::PC(index, j as usize)),
                        )
                    &&& forall|j: int| 0 <= j < 30 ==> (#[trigger] v@[j])@.wf()
                },
                Err(e) => {
                    ||| (e == Error::NoFileOpened && !self.loaded())
                    ||| (e == Error::OutOfBounds && self.loaded() && index >= 14)
                },
            },
    {
        if self.data.len() == 0 {
            return Err(Error::NoFileOpened);
        }
        if index >= BOX_COUNT {
            return Err(Error::OutOfBounds);
        }
        let mut out: Vec<CreatureRecord> = Vec::new();
        let mut j: usize = 0;
        while j < 30
            invariant
                j <= 30,
                index < 14,
                self.loaded(),
                out@.len() == j,
                forall|k: int|
                    0 <= k < j ==> (#[trigger] out@[k])@ == decode_spec(
                        record_bytes_at(self@, StorageLocation::PC(index, k as usize)),
                    ),
                forall|k: int| 0 <= k < j ==> (#[trigger] out@[k])@.wf(),
            decreases 30 - j,
        {
            let off = BOX_OFFSET + (index * BOX_CAPACITY + j) * RECORD_SIZE;
            let bytes = copy_range(&self.data, off, RECORD_SIZE);
            let rec = decode(&bytes);
            out.push(rec);
            j = j + 1;
        }
        Ok(out)
    }

    /// Whether the boxes hold no creature at all, or no buffer is loaded:
    /// every box slot decodes to the empty-slot record.
    pub open spec fn is_pc_empty_spec(&self) -> bool {
        !self.loaded() || (forall|b: int, j: int|
            0 <= b < 14 && 0 <= j < 30 ==> decode_spec(
                #[trigger] record_bytes_at(self@, StorageLocation::PC(b as usize, j as usize)),
            ).species == 0)
    }

    /// Whether the boxes hold no creature at all (or no buffer is loaded).
    pub fn is_pc_empty(&self) -> (e: bool)
        requires
            self.wf(),
        ensures
            e == self.is_pc_empty_spec(),
    {
        if self.data.len() == 0 {
            return true;
        }
        let mut b: usize = 0;
        while b < BOX_COUNT
            invariant
                b <= 14,
                self.loaded(),
                forall|x: int, j: int|
                    0 <= x < b && 0 <= j < 30 ==> decode_spec(
                        #[trigger] record_bytes_at(
                            self@,
                            StorageLocation::PC(x as usize, j as usize),
                        ),
                    ).species == 0,
            decreases 14 - b,
        {
            let mut j: usize = 0;
            while j < BOX_CAPACITY
                invariant
                    b < 14,
                    j <= 30,
                    self.loaded(),
                    forall|x: int, y: int|
                        0 <= x < b && 0 <= y < 30 ==> decode_spec(
                            #[trigger] record_bytes_at(
                                self@,
                                StorageLocation::PC(x as usize, y as usize),
                            ),
                        ).species == 0,
                    forall|y: int|
                        0 <= y < j ==> decode_spec(
                            #[trigger] record_bytes_at(
                                self@,
                                StorageLocation::PC(b as usize, y as usize),
                            ),
                        ).species == 0,
                decreases 30 - j,
            {
                let off = BOX_OFFSET + (b * BOX_CAPACITY + j) * RECORD_SIZE;
                let bytes = copy_range(&self.data, off, RECORD_SIZE);
                let rec = decode(&bytes);
                if !rec.is_empty() {
                    proof {
                        assert(record_bytes_at(self@, StorageLocation::PC(b, j)) =~= bytes@);
                        assert(!(forall|x: int, y: int|
                            0 <= x < 14 && 0 <= y < 30 ==> decode_spec(
                                #[trigger] record_bytes_at(
                                    self@,
                                    StorageLocation::PC(x as usize, y as usize),
                                ),
                            ).species == 0)) by {
                            assert(decode_spec(
                                record_bytes_at(
                                    self@,
                                    StorageLocation::PC((b as int) as usize, (j as int) as usize),
                                ),
                            ).species != 0);
                        }
                    }
                    return false;
                }
                j = j + 1;
            }
            b = b + 1;
        }
        true
    }

    /// Encodes `record` and writes its 80 bytes at the location's offset,
    /// leaving every other byte of the buffer unchanged.
    pub fn save_pokemon(&mut self, location: StorageLocation, record: &CreatureRecord) -> (r:
        Result<(), Error>)
        requires
            old(self).wf(),
            record@.wf(),
        ensures
            final(self).wf(),
            match r {
                Ok(()) => {
                    &&& old(self).loaded()
                    &&& location_valid(location)
                    &&& final(self)@.len() == old(self)@.len()
                    &&& record_bytes_at(final(self)@, location) == encode_spec(record@)
                    &&& forall|j: int|
                        0 <= j < old(self)@.len() && !(location_offset_spec(location) <= j
                            < location_offset_spec(location) + 80)
                            ==> final(self)@[j] == old(self)@[j]
                },
                Err(e) => {
                    &&& final(self)@ == old(self)@
                    &&& {
                        ||| (e == Error::NoFileOpened && !old(self).loaded())
                        ||| (e == Error::OutOfBounds && old(self).loaded() && !location_valid(
                            location,
                        ))
                    }
                },
            },
    {
        if self.data.len() == 0 {
            return Err(Error::NoFileOpened);
        }
        let off: usize = match location {
            StorageLocation::Party(slot) => {
                if slot >= PARTY_SLOTS {
                    return Err(Error::OutOfBounds);
                }
                PARTY_OFFSET + slot * RECORD_SIZE
            },
            StorageLocation::PC(b, slot) => {
                if b >= BOX_COUNT || slot >= BOX_CAPACITY {
                    return Err(Error::OutOfBounds);
                }
                BOX_OFFSET + (b * BOX_CAPACITY + slot) * RECORD_SIZE
            },
        };
        let enc = encode(record);
        splice_range(&mut self.data, off, &enc);
        proof {
            assert(record_bytes_at(self@, location) =~= encode_spec(record@));
        }
        Ok(())
    }

    /// The slots of pocket `kind`, in stored order.
    pub fn pocket(&self, kind: Pocket) -> (r: Result<Vec<ItemSlot>, Error>)
        requires
            self.wf(),
        ensures
            match r {
                Ok(v) => {
                    &&& self.loaded()
                    &&& v@.len() == pocket_capacity_spec(kind)
                    &&& forall|i: int|
                        0 <= i < v@.len() ==> #[trigger] v@[i] == pocket_slot_spec(self@, kind, i)
                },
                Err(e) => e == Error::NoFileOpened && !self.loaded(),
            },
    {
        if self.data.len() == 0 {
            return Err(Error::NoFileOpened);
        }
        let off = pocket_offset(kind);
        let n = kind.capacity();
        let mut out: Vec<ItemSlot> = Vec::new();
        let mut i: usize = 0;
        while i < n
            invariant
                i <= n,
                self.loaded(),
                off == pocket_offset_spec(kind),
                n == pocket_capacity_spec(kind),
                off + 4 * n <= SAVE_SIZE,
                out@.len() == i,
                forall|k: int|
                    0 <= k < i ==> #[trigger] out@[k] == pocket_slot_spec(self@, kind, k),
            decreases n - i,
        {
            let item = crate::bytes::read_u16_at(&self.data, off + 4 * i);
            let quantity = crate::bytes::read_u16_at(&self.data, off + 4 * i + 2);
            out.push(ItemSlot { item, quantity });
            i = i + 1;
        }
        Ok(out)
    }

    /// Writes a whole pocket's slot table back, normalizing every slot so
    /// the pocket invariant holds in the buffer whatever state the caller
    /// passed; every byte outside the pocket's table is unchanged.
    pub fn save_pocket(&mut self, kind: Pocket, slots: &Vec<ItemSlot>) -> (r: Result<(), Error>)
        requires
            old(self).wf(),
        ensures
            final(self).wf(),
            match r {
                Ok(()) => {
                    &&& old(self).loaded()
                    &&& slots@.len() == pocket_capacity_spec(kind)
                    &&& final(self)@.len() == old(self)@.len()
                    &&& forall|i: int|
                        0 <= i < slots@.len() ==> #[trigger] pocket_slot_spec(final(self)@, kind, i)
                            == normalize_spec(slots@[i])
                    &&& forall|i: int|
                        0 <= i < slots@.len() ==> crate::pocket::slot_invariant(
                            #[trigger] pocket_slot_spec(final(self)@, kind, i),
                        )
                    &&& forall|j: int|
                        0 <= j < old(self)@.len() && !(pocket_offset_spec(kind) <= j
                            < pocket_offset_spec(kind) + 4 * pocket_capacity_spec(kind))
                            ==> final(self)@[j] == old(self)@[j]
                },
                Err(e) => {
                    &&& final(self)@ == old(self)@
                    &&& {
                        ||| (e == Error::NoFileOpened && !old(self).loaded())
                        ||| (e == Error::OutOfBounds && old(self).loaded() && slots@.len()
                            != pocket_capacity_spec(kind))
                    }
                },
            },
    {
        if self.data.len() == 0 {
            return Err(Error::NoFileOpened);
        }
        let n = kind.capacity();
        if slots.len() != n {
            return Err(Error::OutOfBounds);
        }
        let off = pocket_offset(kind);
        let mut table: Vec<u8> = Vec::new();
        let mut i: usize = 0;
        while i < n
            invariant
                i <= n,
                n == slots@.len(),
                n == pocket_capacity_spec(kind),
                table@.len() == 4 * i,
                forall|k: int|
                    0 <= k < i ==> le16_at(table@, 4 * k) == normalize_spec(#[trigger] slots@[k]).item
                        && le16_at(table@, 4 * k + 2) == normalize_spec(slots@[k]).quantity,
            decreases n - i,
        {
            let s = normalize_slot(slots[i]);
            push_u16(&mut table, s.item);
            push_u16(&mut table, s.quantity);
            proof {
                lemma_le16_roundtrip(normalize_spec(slots@[i as int]).item);
                lemma_le16_roundtrip(normalize_spec(slots@[i as int]).quantity);
            }
            i = i + 1;
        }
        splice_range(&mut self.data, off, &table);
        proof {
            assert forall|i: int| 0 <= i < slots@.len() implies #[trigger] pocket_slot_spec(
                self@,
                kind,
                i,
            ) == normalize_spec(slots@[i]) by {
                assert(self@[pocket_offset_spec(kind) + 4 * i] == table@[4 * i]);
                assert(self@[pocket_offset_spec(kind) + 4 * i + 1] == table@[4 * i + 1]);
                assert(self@[pocket_offset_spec(kind) + 4 * i + 2] == table@[4 * i + 2]);
                assert(self@[pocket_offset_spec(kind) + 4 * i + 3] == table@[4 * i + 3]);
                crate::pocket::lemma_normalize_establishes_invariant(slots@[i]);
            }
            assert forall|i: int| 0 <= i < slots@.len() implies crate::pocket::slot_invariant(
                #[trigger] pocket_slot_spec(self@, kind, i),
            ) by {
                crate::pocket::lemma_normalize_establishes_invariant(slots@[i]);
            }
        }
        Ok(())
    }
}

} // verus!
