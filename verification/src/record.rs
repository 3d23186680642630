//! The creature record codec.  A record is an 80-byte block: a 32-byte
//! header (identity, names, checksum, level) followed by a 48-byte data
//! region of four 12-byte blocks — growth, attacks, effort, misc — stored in
//! the order selected by the personality value (see `shuffle`).  The 16-bit
//! checksum at header offset 28 covers the stored data region and is
//! recomputed on every encode; on decode a mismatch is a soft signal only.

use crate::bytes::{
    copy_range, le16_at, le16_bytes, le32_at, le32_bytes, lemma_le16_roundtrip,
    lemma_le32_roundtrip, push_bytes, push_u16, push_u32, read_u16_at, read_u32_at,
};
use crate::checksum::{checksum, checksum_spec};
use crate::shuffle::{
    apply_shuffle, apply_shuffle_spec, invert_shuffle, invert_shuffle_spec, lemma_orders,
    lemma_shuffle_roundtrip,
};
use vstd::prelude::*;

verus! {

/// Size in bytes of one encoded creature record.
pub const RECORD_SIZE: usize = 80;

/// Offset of the stored checksum within a record.
pub const CHECKSUM_OFFSET: usize = 28;

/// Offset of the shuffled data region within a record.
pub const DATA_OFFSET: usize = 32;

/// Length in bytes of the data region.
pub const DATA_LEN: usize = 48;

/// A decoded creature record.  Every byte of the encoded block is covered by
/// exactly one field, so decoding and re-encoding loses nothing; the filler
/// and reserved fields carry the bytes the editor does not interpret.
#[derive(Clone, Debug, PartialEq)]
pub struct CreatureRecord {
    /// 32-bit identity value; selects the data block order and the nature.
    pub personality_value: u32,
    /// Original trainer's id.
    pub ot_id: u32,
    /// Creature's name, 10 bytes in the game's character set.
    pub nickname: Vec<u8>,
    /// Language code.
    pub language: u16,
    /// Original trainer's name, 7 bytes in the game's character set.
    pub ot_name: Vec<u8>,
    /// Marking flags.
    pub markings: u8,
    /// Stored checksum of the data region, as read; recomputed on encode.
    pub checksum: u16,
    /// Current level.
    pub level: u8,
    /// Reserved header byte, carried through unchanged.
    pub reserved: u8,
    /// Species id; 0 marks an empty slot.
    pub species: u16,
    /// Held item id; 0 means nothing held.
    pub held_item: u16,
    /// Total experience points.
    pub experience: u32,
    /// Power-point bonus flags.
    pub pp_bonuses: u8,
    /// Friendship value.
    pub friendship: u8,
    /// Unused growth-block bytes, carried through unchanged.
    pub growth_filler: u16,
    /// Move ids of the four move slots; 0 marks an empty slot.
    pub moves: Vec<u16>,
    /// Remaining power points of the four move slots.
    pub pp: Vec<u8>,
    /// Effort values of the six stats.
    pub evs: Vec<u8>,
    /// Contest condition bytes, carried through unchanged.
    pub condition: Vec<u8>,
    /// Infection byte: strain in the high nibble, days left in the low one.
    pub pokerus: u8,
    /// Ability slot selector.
    pub ability: u8,
    /// Individual values of the six stats, each in `0..=31`.
    pub ivs: Vec<u8>,
    /// Ribbon flags.
    pub ribbons: u32,
}

/// The mathematical model of a record: the same fields with sequences in
/// place of vectors.
#[verifier::ext_equal]
pub ghost struct CreatureRecordView {
    pub personality_value: u32,
    pub ot_id: u32,
    pub nickname: Seq<u8>,
    pub language: u16,
    pub ot_name: Seq<u8>,
    pub markings: u8,
    pub checksum: u16,
    pub level: u8,
    pub reserved: u8,
    pub species: u16,
    pub held_item: u16,
    pub experience: u32,
    pub pp_bonuses: u8,
    pub friendship: u8,
    pub growth_filler: u16,
    pub moves: Seq<u16>,
    pub pp: Seq<u8>,
    pub evs: Seq<u8>,
    pub condition: Seq<u8>,
    pub pokerus: u8,
    pub ability: u8,
    pub ivs: Seq<u8>,
    pub ribbons: u32,
}

impl View for CreatureRecord {
    type V = CreatureRecordView;

    open spec fn view(&self) -> CreatureRecordView {
        CreatureRecordView {
            personality_value: self.personality_value,
            ot_id: self.ot_id,
            nickname: self.nickname@,
            language: self.language,
            ot_name: self.ot_name@,
            markings: self.markings,
            checksum: self.checksum,
            level: self.level,
            reserved: self.reserved,
            species: self.species,
            held_item: self.held_item,
            experience: self.experience,
            pp_bonuses: self.pp_bonuses,
            friendship: self.friendship,
            growth_filler: self.growth_filler,
            moves: self.moves@,
            pp: self.pp@,
            evs: self.evs@,
            condition: self.condition@,
            pokerus: self.pokerus,
            ability: self.ability,
            ivs: self.ivs@,
            ribbons: self.ribbons,
        }
    }
}

impl CreatureRecordView {
    /// Well-formedness: the variable-width fields have their format widths.
    pub open spec fn wf(self) -> bool {
        &&& self.nickname.len() == 10
        &&& self.ot_name.len() == 7
        &&& self.moves.len() == 4
        &&& self.pp.len() == 4
        &&& self.evs.len() == 6
        &&& self.condition.len() == 6
        &&& self.ivs.len() == 6
    }
}

/// The growth block: species, held item, experience, bonuses, friendship.
pub open spec fn growth_bytes(v: CreatureRecordView) -> Seq<u8> {
    le16_bytes(v.species) + le16_bytes(v.held_item) + le32_bytes(v.experience) + seq![
        v.pp_bonuses,
        v.friendship,
    ] + le16_bytes(v.growth_filler)
}

/// The attacks block: four move ids and their power points.
pub open spec fn attacks_bytes(v: CreatureRecordView) -> Seq<u8> {
    le16_bytes(v.moves[0]) + le16_bytes(v.moves[1]) + le16_bytes(v.moves[2]) + le16_bytes(
        v.moves[3],
    ) + v.pp
}

/// The effort block: effort values and condition bytes.
pub open spec fn effort_bytes(v: CreatureRecordView) -> Seq<u8> {
    v.evs + v.condition
}

/// The misc block: infection byte, ability, individual values, ribbons.
pub open spec fn misc_bytes(v: CreatureRecordView) -> Seq<u8> {
    seq![v.pokerus, v.ability] + v.ivs + le32_bytes(v.ribbons)
}

/// The 48-byte data region in logical block order.
#[verifier::opaque]
pub open spec fn logical_data(v: CreatureRecordView) -> Seq<u8> {
    growth_bytes(v) + attacks_bytes(v) + effort_bytes(v) + misc_bytes(v)
}

/// The data region as stored: the logical blocks shuffled by the
/// personality value.
pub open spec fn stored_data(v: CreatureRecordView) -> Seq<u8> {
    apply_shuffle_spec(logical_data(v), v.personality_value)
}

/// The checksum that encoding writes: the checksum of the stored data.
pub open spec fn stored_checksum(v: CreatureRecordView) -> u16 {
    checksum_spec(stored_data(v))
}

/// The 32-byte header.  The checksum field is always the recomputed one,
/// never the caller-supplied `checksum` field.
#[verifier::opaque]
pub open spec fn header_bytes(v: CreatureRecordView) -> Seq<u8> {
    le32_bytes(v.personality_value) + le32_bytes(v.ot_id) + v.nickname + le16_bytes(v.language)
        + v.ot_name + seq![v.markings] + le16_bytes(stored_checksum(v)) + seq![v.level, v.reserved]
}

/// The full 80-byte encoding of a record.
#[verifier::opaque]
pub open spec fn encode_spec(v: CreatureRecordView) -> Seq<u8> {
    header_bytes(v) + stored_data(v)
}

/// The record decoded from an 80-byte block: header fields at fixed
/// offsets, data fields at fixed offsets of the un-shuffled data region.
#[verifier::opaque]
pub open spec fn decode_spec(b: Seq<u8>) -> CreatureRecordView {
    let pv = le32_at(b, 0) as u32;
    let data = invert_shuffle_spec(b.subrange(32, 80), pv);
    CreatureRecordView {
        personality_value: pv,
        ot_id: le32_at(b, 4) as u32,
        nickname: b.subrange(8, 18),
        language: le16_at(b, 18) as u16,
        ot_name: b.subrange(20, 27),
        markings: b[27],
        checksum: le16_at(b, 28) as u16,
        level: b[30],
        reserved: b[31],
        species: le16_at(data, 0) as u16,
        held_item: le16_at(data, 2) as u16,
        experience: le32_at(data, 4) as u32,
        pp_bonuses: data[8],
        friendship: data[9],
        growth_filler: le16_at(data, 10) as u16,
        moves: seq![
            le16_at(data, 12) as u16,
            le16_at(data, 14) as u16,
            le16_at(data, 16) as u16,
            le16_at(data, 18) as u16,
        ],
        pp: data.subrange(20, 24),
        evs: data.subrange(24, 30),
        condition: data.subrange(30, 36),
        pokerus: data[36],
        ability: data[37],
        ivs: data.subrange(38, 44),
        ribbons: le32_at(data, 44) as u32,
    }
}

/// Equality of two record models on every field except the checksum, which
/// encoding recomputes.
pub open spec fn same_ignoring_checksum(a: CreatureRecordView, b: CreatureRecordView) -> bool {
    &&& a.personality_value == b.personality_value
    &&& a.ot_id == b.ot_id
    &&& a.nickname == b.nickname
    &&& a.language == b.language
    &&& a.ot_name == b.ot_name
    &&& a.markings == b.markings
    &&& a.level == b.level
    &&& a.reserved == b.reserved
    &&& a.species == b.species
    &&& a.held_item == b.held_item
    &&& a.experience == b.experience
    &&& a.pp_bonuses == b.pp_bonuses
    &&& a.friendship == b.friendship
    &&& a.growth_filler == b.growth_filler
    &&& a.moves == b.moves
    &&& a.pp == b.pp
    &&& a.evs == b.evs
    &&& a.condition == b.condition
    &&& a.pokerus == b.pokerus
    &&& a.ability == b.ability
    &&& a.ivs == b.ivs
    &&& a.ribbons == b.ribbons
}

/// The four logical blocks of a well-formed record are 12 bytes each, so the
/// logical data region is 48 bytes.
pub proof fn lemma_block_lens(v: CreatureRecordView)
    requires
        v.wf(),
    ensures
        growth_bytes(v).len() == 12,
        attacks_bytes(v).len() == 12,
        effort_bytes(v).len() == 12,
        misc_bytes(v).len() == 12,
        logical_data(v).len() == 48,
{
    reveal(logical_data);
}

/// A well-formed record encodes to exactly `RECORD_SIZE` bytes.
pub proof fn lemma_encode_len(v: CreatureRecordView)
    requires
        v.wf(),
    ensures
        encode_spec(v).len() == 80,
        stored_data(v).len() == 48,
        header_bytes(v).len() == 32,
{
    reveal(encode_spec);
    reveal(header_bytes);
    lemma_block_lens(v);
    lemma_orders(v.personality_value);
}

/// Header extraction: every header field of a well-formed record can be
/// read back from its encoding at its fixed offset, and the stored data
/// region is the shuffled logical data.
proof fn lemma_header_extraction(v: CreatureRecordView)
    requires
        v.wf(),
    ensures
        le32_at(encode_spec(v), 0) == v.personality_value,
        le32_at(encode_spec(v), 4) == v.ot_id,
        encode_spec(v).subrange(8, 18) == v.nickname,
        le16_at(encode_spec(v), 18) == v.language,
        encode_spec(v).subrange(20, 27) == v.ot_name,
        encode_spec(v)[27] == v.markings,
        le16_at(encode_spec(v), 28) == stored_checksum(v),
        encode_spec(v)[30] == v.level,
        encode_spec(v)[31] == v.reserved,
        encode_spec(v).subrange(32, 80) == stored_data(v),
{
    reveal(encode_spec);
    reveal(header_bytes);
    lemma_block_lens(v);
    lemma_encode_len(v);
    let enc = encode_spec(v);
    let h = header_bytes(v);
    assert forall|i: int| 0 <= i < 32 implies enc[i] == h[i] by {}
    lemma_le32_roundtrip(v.personality_value);
    lemma_le32_roundtrip(v.ot_id);
    lemma_le16_roundtrip(v.language);
    lemma_le16_roundtrip(stored_checksum(v));
    assert(enc.subrange(8, 18) =~= v.nickname);
    assert(enc.subrange(20, 27) =~= v.ot_name);
    assert(enc.subrange(32, 80) =~= stored_data(v));
}

/// Growth-block extraction from the logical data region.
proof fn lemma_growth_extraction(v: CreatureRecordView)
    requires
        v.wf(),
    ensures
        le16_at(logical_data(v), 0) == v.species,
        le16_at(logical_data(v), 2) == v.held_item,
        le32_at(logical_data(v), 4) == v.experience,
        logical_data(v)[8] == v.pp_bonuses,
        logical_data(v)[9] == v.friendship,
        le16_at(logical_data(v), 10) == v.growth_filler,
{
    reveal(logical_data);
    lemma_block_lens(v);
    lemma_le16_roundtrip(v.species);
    lemma_le16_roundtrip(v.held_item);
    lemma_le32_roundtrip(v.experience);
    lemma_le16_roundtrip(v.growth_filler);
}

/// Attacks-, effort- and misc-block extraction from the logical data region.
proof fn lemma_tail_extraction(v: CreatureRecordView)
    requires
        v.wf(),
    ensures
        le16_at(logical_data(v), 12) == v.moves[0],
        le16_at(logical_data(v), 14) == v.moves[1],
        le16_at(logical_data(v), 16) == v.moves[2],
        le16_at(logical_data(v), 18) == v.moves[3],
        logical_data(v).subrange(20, 24) == v.pp,
        logical_data(v).subrange(24, 30) == v.evs,
        logical_data(v).subrange(30, 36) == v.condition,
        logical_data(v)[36] == v.pokerus,
        logical_data(v)[37] == v.ability,
        logical_data(v).subrange(38, 44) == v.ivs,
        le32_at(logical_data(v), 44) == v.ribbons,
{
    reveal(logical_data);
    lemma_block_lens(v);
    let data = logical_data(v);
    lemma_le16_roundtrip(v.moves[0]);
    lemma_le16_roundtrip(v.moves[1]);
    lemma_le16_roundtrip(v.moves[2]);
    lemma_le16_roundtrip(v.moves[3]);
    lemma_le32_roundtrip(v.ribbons);
    assert(data.subrange(20, 24) =~= v.pp);
    assert(data.subrange(24, 30) =~= v.evs);
    assert(data.subrange(30, 36) =~= v.condition);
    assert(data.subrange(38, 44) =~= v.ivs);
}

/// Round-trip of the header fields: decoding an encoded record reads back
/// every header field, with the checksum field holding the recomputed
/// checksum.
proof fn lemma_roundtrip_header_fields(v: CreatureRecordView)
    requires
        v.wf(),
    ensures
        decode_spec(encode_spec(v)).personality_value == v.personality_value,
        decode_spec(encode_spec(v)).ot_id == v.ot_id,
        decode_spec(encode_spec(v)).nickname == v.nickname,
        decode_spec(encode_spec(v)).language == v.language,
        decode_spec(encode_spec(v)).ot_name == v.ot_name,
        decode_spec(encode_spec(v)).markings == v.markings,
        decode_spec(encode_spec(v)).checksum == stored_checksum(v),
        decode_spec(encode_spec(v)).level == v.level,
        decode_spec(encode_spec(v)).reserved == v.reserved,
{
    reveal(decode_spec);
    lemma_encode_len(v);
    lemma_header_extraction(v);
}

/// The un-shuffled data region of an encoded record is the logical data.
proof fn lemma_roundtrip_data_region(v: CreatureRecordView)
    requires
        v.wf(),
    ensures
        invert_shuffle_spec(
            encode_spec(v).subrange(32, 80),
            decode_spec(encode_spec(v)).personality_value,
        ) == logical_data(v),
{
    reveal(decode_spec);
    lemma_block_lens(v);
    lemma_encode_len(v);
    lemma_header_extraction(v);
    lemma_shuffle_roundtrip(logical_data(v), v.personality_value);
    assert(encode_spec(v).subrange(32, 80) == stored_data(v));
}

/// Round-trip of the growth-block fields.
proof fn lemma_roundtrip_growth_fields(v: CreatureRecordView)
    requires
        v.wf(),
    ensures
        decode_spec(encode_spec(v)).species == v.species,
        decode_spec(encode_spec(v)).held_item == v.held_item,
        decode_spec(encode_spec(v)).experience == v.experience,
        decode_spec(encode_spec(v)).pp_bonuses == v.pp_bonuses,
        decode_spec(encode_spec(v)).friendship == v.friendship,
        decode_spec(encode_spec(v)).growth_filler == v.growth_filler,
{
    reveal(decode_spec);
    lemma_block_lens(v);
    lemma_encode_len(v);
    lemma_roundtrip_data_region(v);
    lemma_growth_extraction(v);
}

/// Round-trip of the attacks-, effort- and misc-block fields.
proof fn lemma_roundtrip_tail_fields(v: CreatureRecordView)
    requires
        v.wf(),
    ensures
        decode_spec(encode_spec(v)).moves == v.moves,
        decode_spec(encode_spec(v)).pp == v.pp,
        decode_spec(encode_spec(v)).evs == v.evs,
        decode_spec(encode_spec(v)).condition == v.condition,
        decode_spec(encode_spec(v)).pokerus == v.pokerus,
        decode_spec(encode_spec(v)).ability == v.ability,
        decode_spec(encode_spec(v)).ivs == v.ivs,
        decode_spec(encode_spec(v)).ribbons == v.ribbons,
{
    reveal(decode_spec);
    lemma_block_lens(v);
    lemma_encode_len(v);
    lemma_roundtrip_data_region(v);
    lemma_tail_extraction(v);
    assert(decode_spec(encode_spec(v)).moves =~= v.moves);
}

/// Round-trip: decoding an encoded record gives the record back, except for
/// the checksum field, which decoding reads as the recomputed checksum.
pub proof fn lemma_decode_encode_roundtrip(v: CreatureRecordView)
    requires
        v.wf(),
    ensures
        same_ignoring_checksum(decode_spec(encode_spec(v)), v),
        decode_spec(encode_spec(v)).checksum == stored_checksum(v),
        decode_spec(encode_spec(v)).wf(),
{
    lemma_roundtrip_header_fields(v);
    lemma_roundtrip_growth_fields(v);
    lemma_roundtrip_tail_fields(v);
}

/// The checksum an encode writes always verifies: the word stored at the
/// checksum offset is the checksum of the stored data region.
pub proof fn lemma_encoded_checksum_verifies(v: CreatureRecordView)
    requires
        v.wf(),
    ensures
        le16_at(encode_spec(v), 28) == checksum_spec(encode_spec(v).subrange(32, 80)),
{
    lemma_header_extraction(v);
}

/// The encoding never reads the record's own checksum field: records equal
/// everywhere else encode to the same bytes.
pub proof fn lemma_encode_ignores_checksum(v: CreatureRecordView, cs: u16)
    ensures
        encode_spec(CreatureRecordView { checksum: cs, ..v }) == encode_spec(v),
{
    reveal(logical_data);
    reveal(header_bytes);
    reveal(encode_spec);
    let w = CreatureRecordView { checksum: cs, ..v };
    assert(logical_data(w) == logical_data(v));
}

/// Encodes a record into its 80-byte stored form.  The checksum written at
/// offset 28 is the recomputed checksum of the stored data region; the
/// record's own `checksum` field is ignored.
pub fn encode(r: &CreatureRecord) -> (out: Vec<u8>)
    requires
        r@.wf(),
    ensures
        out@ == encode_spec(r@),
        out@.len() == RECORD_SIZE,
{
    proof {
        reveal(logical_data);
        reveal(header_bytes);
        reveal(encode_spec);
        lemma_block_lens(r@);
        lemma_encode_len(r@);
    }
    let mut data: Vec<u8> = Vec::new();
    push_u16(&mut data, r.species);
    push_u16(&mut data, r.held_item);
    push_u32(&mut data, r.experience);
    data.push(r.pp_bonuses);
    data.push(r.friendship);
    push_u16(&mut data, r.growth_filler);
    push_u16(&mut data, r.moves[0]);
    push_u16(&mut data, r.moves[1]);
    push_u16(&mut data, r.moves[2]);
    push_u16(&mut data, r.moves[3]);
    push_bytes(&mut data, &r.pp);
    push_bytes(&mut data, &r.evs);
    push_bytes(&mut data, &r.condition);
    data.push(r.pokerus);
    data.push(r.ability);
    push_bytes(&mut data, &r.ivs);
    push_u32(&mut data, r.ribbons);
    proof {
        assert(data@ =~= logical_data(r@));
    }
    let shuffled = apply_shuffle(&data, r.personality_value);
    let cs = checksum(&shuffled);
    let mut out: Vec<u8> = Vec::new();
    push_u32(&mut out, r.personality_value);
    push_u32(&mut out, r.ot_id);
    push_bytes(&mut out, &r.nickname);
    push_u16(&mut out, r.language);
    push_bytes(&mut out, &r.ot_name);
    out.push(r.markings);
    push_u16(&mut out, cs);
    out.push(r.level);
    out.push(r.reserved);
    push_bytes(&mut out, &shuffled);
    proof {
        assert(out@ =~= encode_spec(r@));
    }
    out
}

/// Decodes an 80-byte stored block into a record.  Decoding never fails: a
/// checksum mismatch is left for `checksum_valid` to report, and an all-zero
/// block decodes to the empty-slot record.
pub fn decode(b: &Vec<u8>) -> (r: CreatureRecord)
    requires
        b@.len() == RECORD_SIZE,
    ensures
        r@ == decode_spec(b@),
        r@.wf(),
{
    proof {
        reveal(decode_spec);
    }
    let pv = read_u32_at(b, 0);
    let stored = copy_range(b, DATA_OFFSET, DATA_LEN);
    let data = invert_shuffle(&stored, pv);
    proof {
        crate::shuffle::lemma_orders(pv);
    }
    let mut moves: Vec<u16> = Vec::new();
    moves.push(read_u16_at(&data, 12));
    moves.push(read_u16_at(&data, 14));
    moves.push(read_u16_at(&data, 16));
    moves.push(read_u16_at(&data, 18));
    let r = CreatureRecord {
        personality_value: pv,
        ot_id: read_u32_at(b, 4),
        nickname: copy_range(b, 8, 10),
        language: read_u16_at(b, 18),
        ot_name: copy_range(b, 20, 7),
        markings: b[27],
        checksum: read_u16_at(b, 28),
        level: b[30],
        reserved: b[31],
        species: read_u16_at(&data, 0),
        held_item: read_u16_at(&data, 2),
        experience: read_u32_at(&data, 4),
        pp_bonuses: data[8],
        friendship: data[9],
        growth_filler: read_u16_at(&data, 10),
        moves,
        pp: copy_range(&data, 20, 4),
        evs: copy_range(&data, 24, 6),
        condition: copy_range(&data, 30, 6),
        pokerus: data[36],
        ability: data[37],
        ivs: copy_range(&data, 38, 6),
        ribbons: read_u32_at(&data, 44),
    };
    proof {
        assert(r@.moves =~= decode_spec(b@).moves);
        assert(r@ =~= decode_spec(b@));
    }
    r
}

/// Whether the checksum stored in an encoded record matches its data region.
pub fn checksum_valid(b: &Vec<u8>) -> (ok: bool)
    requires
        b@.len() == RECORD_SIZE,
    ensures
        ok == (le16_at(b@, 28) == checksum_spec(b@.subrange(32, 80))),
{
    let stored = read_u16_at(b, CHECKSUM_OFFSET);
    let data = copy_range(b, DATA_OFFSET, DATA_LEN);
    let computed = checksum(&data);
    stored == computed
}

/// The three-state infection status derived from the infection byte.
#[derive(Clone, Copy, Debug, PartialEq, Eq, Structural)]
pub enum Pokerus {
    /// Never infected, or the signal was removed.
    Clear,
    /// Actively infected: days remain on the counter.
    Infected,
    /// Had the infection and recovered: the strain stays, the days are spent.
    Cured,
}

/// The six stats a record tracks effort and individual values for.
#[derive(Clone, Copy, Debug, PartialEq, Eq, Structural)]
pub enum StatKind {
    Hp,
    Attack,
    Defense,
    SpAtk,
    SpDef,
    Speed,
}

/// The slot of a stat inside the effort- and individual-value tables.
pub open spec fn stat_index_spec(k: StatKind) -> int {
    match k {
        StatKind::Hp => 0,
        StatKind::Attack => 1,
        StatKind::Defense => 2,
        StatKind::SpAtk => 3,
        StatKind::SpDef => 4,
        StatKind::Speed => 5,
    }
}

impl StatKind {
    /// The stat's slot in the six-entry tables.
    pub fn index(&self) -> (i: usize)
        ensures
            i == stat_index_spec(*self),
            i < 6,
    {
        match self {
            StatKind::Hp => 0,
            StatKind::Attack => 1,
            StatKind::Defense => 2,
            StatKind::SpAtk => 3,
            StatKind::SpDef => 4,
            StatKind::Speed => 5,
        }
    }
}

/// The infection status encoded by an infection byte: days left in the low
/// nibble, strain in the high one.
pub open spec fn pokerus_status_of(b: u8) -> Pokerus {
    if b % 16 > 0 {
        Pokerus::Infected
    } else if b / 16 > 0 {
        Pokerus::Cured
    } else {
        Pokerus::Clear
    }
}

/// One click of the infection cycle: a clear record is infected (strain 1,
/// four days), an infected one is cured (days spent, strain kept), a cured
/// one has the signal removed.
pub open spec fn pokerus_step(b: u8) -> u8 {
    if b % 16 > 0 {
        (16 * (b / 16)) as u8
    } else if b / 16 > 0 {
        0u8
    } else {
        0x14u8
    }
}

/// The infection cycle walks the three states in order.  The strain of a
/// byte the cycle produces is never zero while days remain, and stepping a
/// byte with that property moves `Clear` to `Infected` to `Cured` to `Clear`.
pub proof fn lemma_pokerus_cycle(b: u8)
    requires
        b % 16 > 0 ==> b / 16 > 0,
    ensures
        pokerus_status_of(b) is Clear ==> pokerus_status_of(pokerus_step(b)) is Infected,
        pokerus_status_of(b) is Infected ==> pokerus_status_of(pokerus_step(b)) is Cured,
        pokerus_status_of(b) is Cured ==> pokerus_status_of(pokerus_step(b)) is Clear,
        pokerus_step(b) % 16 > 0 ==> pokerus_step(b) / 16 > 0,
{
}

/// The nature index derived from a personality value.
pub open spec fn nature_of(pv: u32) -> int {
    pv as int % 25
}

/// Highest quotient `q` such that `25 * q + 24` still fits in 32 bits.
const NATURE_QUOTIENT_MAX: u32 = 171798690;

impl CreatureRecord {
    /// The record an unoccupied slot decodes to: every field zero.
    pub fn empty() -> (r: CreatureRecord)
        ensures
            r@.wf(),
            r@.species == 0,
            r@ == decode_spec(Seq::new(80, |i: int| 0u8)),
    {
        let zeros = zero_vec(80);
        let r = decode(&zeros);
        proof {
            reveal(decode_spec);
            let z = Seq::new(80, |i: int| 0u8);
            assert(le32_at(z, 0) == 0);
            let pv = le32_at(z, 0) as u32;
            crate::shuffle::lemma_orders(pv);
            let data = invert_shuffle_spec(z.subrange(32, 80), pv);
            assert(data[0] == 0 && data[1] == 0);
            assert(le16_at(data, 0) == 0);
        }
        r
    }

    /// Whether this record marks an unoccupied slot.
    pub fn is_empty(&self) -> (e: bool)
        ensures
            e == (self@.species == 0),
    {
        self.species == 0
    }

    /// The nature index selected by the personality value.
    pub fn nature(&self) -> (n: u8)
        ensures
            n == nature_of(self@.personality_value),
            n < 25,
    {
        (self.personality_value % 25) as u8
    }

    /// Re-derives the personality value so that it selects nature `n`,
    /// changing it as little as possible, and nothing else.
    pub fn set_nature(&mut self, n: u8)
        requires
            n < 25,
        ensures
            nature_of(final(self)@.personality_value) == n,
            final(self)@ == (CreatureRecordView {
                personality_value: final(self)@.personality_value,
                ..old(self)@
            }),
    {
        let q = self.personality_value / 25;
        let q = if q > NATURE_QUOTIENT_MAX {
            NATURE_QUOTIENT_MAX
        } else {
            q
        };
        self.personality_value = q * 25 + (n as u32);
        proof {
            vstd::arithmetic::div_mod::lemma_mod_multiples_vanish(q as int, n as int, 25);
            vstd::arithmetic::div_mod::lemma_small_mod(n as nat, 25);
        }
    }

    /// The infection status of this record.
    pub fn pokerus_status(&self) -> (st: Pokerus)
        ensures
            st == pokerus_status_of(self@.pokerus),
    {
        if self.pokerus % 16 > 0 {
            Pokerus::Infected
        } else if self.pokerus / 16 > 0 {
            Pokerus::Cured
        } else {
            Pokerus::Clear
        }
    }

    /// Infects a clear record with strain 1 for four days; reports whether
    /// anything changed.
    pub fn infect_pokerus(&mut self) -> (changed: bool)
        ensures
            changed == (pokerus_status_of(old(self)@.pokerus) is Clear),
            changed ==> final(self)@ == (CreatureRecordView { pokerus: 0x14u8, ..old(self)@ }),
            !changed ==> final(self)@ == old(self)@,
    {
        if self.pokerus % 16 == 0 && self.pokerus / 16 == 0 {
            self.pokerus = 0x14;
            true
        } else {
            false
        }
    }

    /// Cures an infected record: the day counter is cleared, the strain is
    /// kept as the mark of having had the infection.
    pub fn cure_pokerus(&mut self) -> (changed: bool)
        ensures
            changed == (pokerus_status_of(old(self)@.pokerus) is Infected),
            changed ==> final(self)@ == (CreatureRecordView {
                pokerus: (16 * (old(self)@.pokerus / 16)) as u8,
                ..old(self)@
            }),
            !changed ==> final(self)@ == old(self)@,
    {
        if self.pokerus % 16 > 0 {
            self.pokerus = 16 * (self.pokerus / 16);
            true
        } else {
            false
        }
    }

    /// Removes the infection signal from a cured record entirely.
    pub fn remove_pokerus(&mut self) -> (changed: bool)
        ensures
            changed == (pokerus_status_of(old(self)@.pokerus) is Cured),
            changed ==> final(self)@ == (CreatureRecordView { pokerus: 0u8, ..old(self)@ }),
            !changed ==> final(self)@ == old(self)@,
    {
        if self.pokerus % 16 == 0 && self.pokerus / 16 > 0 {
            self.pokerus = 0;
            true
        } else {
            false
        }
    }

    /// One click of the infection cycle: clear records are infected,
    /// infected ones cured, cured ones cleared.
    pub fn change_pokerus_status(&mut self)
        ensures
            final(self)@ == (CreatureRecordView {
                pokerus: pokerus_step(old(self)@.pokerus),
                ..old(self)@
            }),
    {
        match self.pokerus_status() {
            Pokerus::Infected => {
                let _ = self.cure_pokerus();
            },
            Pokerus::Cured => {
                let _ = self.remove_pokerus();
            },
            Pokerus::Clear => {
                let _ = self.infect_pokerus();
            },
        }
    }

    /// Sets the species id; derived traits are the lookup tables' business.
    pub fn set_species(&mut self, species: u16)
        ensures
            final(self)@ == (CreatureRecordView { species: species, ..old(self)@ }),
    {
        self.species = species;
    }

    /// Sets the held item id.
    pub fn give_item(&mut self, item: u16)
        ensures
            final(self)@ == (CreatureRecordView { held_item: item, ..old(self)@ }),
    {
        self.held_item = item;
    }

    /// Sets the friendship value.
    pub fn set_friendship(&mut self, friendship: u8)
        ensures
            final(self)@ == (CreatureRecordView { friendship: friendship, ..old(self)@ }),
    {
        self.friendship = friendship;
    }

    /// Sets the level.
    pub fn set_level(&mut self, level: u8)
        ensures
            final(self)@ == (CreatureRecordView { level: level, ..old(self)@ }),
    {
        self.level = level;
    }

    /// Puts move `id` into move slot `slot` and fills its power points to
    /// the move's maximum, which the move table supplies.
    pub fn set_move(&mut self, slot: usize, id: u16, max_pp: u8)
        requires
            slot < 4,
            old(self)@.wf(),
        ensures
            final(self)@ == (CreatureRecordView {
                moves: old(self)@.moves.update(slot as int, id),
                pp: old(self)@.pp.update(slot as int, max_pp),
                ..old(self)@
            }),
            final(self)@.wf(),
    {
        self.moves.set(slot, id);
        self.pp.set(slot, max_pp);
    }

    /// Sets the individual value of one stat, clamped to the format's
    /// maximum of 31.
    pub fn update_iv(&mut self, stat: StatKind, value: u16)
        requires
            old(self)@.wf(),
        ensures
            final(self)@ == (CreatureRecordView {
                ivs: old(self)@.ivs.update(
                    stat_index_spec(stat),
                    if value > 31 {
                        31u8
                    } else {
                        value as u8
                    },
                ),
                ..old(self)@
            }),
            final(self)@.wf(),
    {
        let clamped: u8 = if value > 31 {
            31
        } else {
            value as u8
        };
        let i = stat.index();
        self.ivs.set(i, clamped);
    }

    /// Sets the effort value of one stat, clamped to the format's per-stat
    /// maximum of 252.  No cap over the six stats together is enforced.
    pub fn update_ev(&mut self, stat: StatKind, value: u16)
        requires
            old(self)@.wf(),
        ensures
            final(self)@ == (CreatureRecordView {
                evs: old(self)@.evs.update(
                    stat_index_spec(stat),
                    if value > 252 {
                        252u8
                    } else {
                        value as u8
                    },
                ),
                ..old(self)@
            }),
            final(self)@.wf(),
    {
        let clamped: u8 = if value > 252 {
            252
        } else {
            value as u8
        };
        let i = stat.index();
        self.evs.set(i, clamped);
    }

    /// Recomputes the checksum field from the record's data, so that the
    /// stored field matches what encoding will write.
    pub fn update_checksum(&mut self)
        requires
            old(self)@.wf(),
        ensures
            final(self)@ == (CreatureRecordView {
                checksum: stored_checksum(old(self)@),
                ..old(self)@
            }),
            final(self)@.wf(),
    {
        let enc = encode(self);
        let cs = read_u16_at(&enc, CHECKSUM_OFFSET);
        proof {
            reveal(encode_spec);
            reveal(header_bytes);
            lemma_block_lens(self@);
            lemma_encode_len(self@);
            lemma_le16_roundtrip(stored_checksum(self@));
            let h = header_bytes(self@);
            assert forall|i: int| 0 <= i < 32 implies encode_spec(self@)[i] == h[i] by {}
            assert(le16_at(enc@, 28) == stored_checksum(self@));
        }
        self.checksum = cs;
    }
}

/// A vector of `n` zero bytes.
pub fn zero_vec(n: usize) -> (r: Vec<u8>)
    ensures
        r@ == Seq::new(n as nat, |i: int| 0u8),
{
    let mut r: Vec<u8> = Vec::new();
    let mut i: usize = 0;
    while i < n
        invariant
            i <= n,
            r@ == Seq::new(i as nat, |j: int| 0u8),
        decreases n - i,
    {
        r.push(0);
        proof {
            assert(r@ =~= Seq::new((i + 1) as nat, |j: int| 0u8));
        }
        i = i + 1;
    }
    r
}

} // verus!
