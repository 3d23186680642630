use pk_editor::error::Error;
use pk_editor::input::{parse_digits_u16, parse_digits_u64};
use pk_editor::record::{Pokerus, StatKind};
use pk_editor::record::{checksum_valid, decode, encode, CreatureRecord, RECORD_SIZE};
use pk_editor::savefile::{
    SaveFile, StorageLocation, BOX_COUNT, BOX_OFFSET, PARTY_OFFSET, SAVE_SIZE,
};
use pk_editor::session::{Screen, Session, Status};

fn patterned_bytes() -> Vec<u8> {
    (0..SAVE_SIZE).map(|i| (i % 251) as u8).collect()
}

fn blank_save() -> SaveFile {
    SaveFile::load(vec![0u8; SAVE_SIZE]).unwrap()
}

fn sample_record() -> CreatureRecord {
    let mut r = CreatureRecord::empty();
    r.personality_value = 0x00C0FFEE;
    r.ot_id = 77;
    r.species = 25;
    r.level = 50;
    r.friendship = 70;
    r.experience = 125000;
    r.moves = vec![84, 0, 0, 0];
    r.pp = vec![30, 0, 0, 0];
    r
}

#[test]
fn load_refuses_wrong_length() {
    assert!(matches!(
        SaveFile::load(vec![0u8; SAVE_SIZE - 1]),
        Err(Error::FormatError)
    ));
    assert!(matches!(SaveFile::load(vec![]), Err(Error::FormatError)));
    assert!(SaveFile::load(vec![0u8; SAVE_SIZE]).is_ok());
}

#[test]
fn load_then_save_is_byte_identical() {
    let bytes = patterned_bytes();
    let save = SaveFile::load(bytes.clone()).unwrap();
    assert_eq!(save.raw_data(), bytes);
}

#[test]
fn saving_a_record_touches_only_its_byte_range() {
    let bytes = patterned_bytes();
    let mut save = SaveFile::load(bytes.clone()).unwrap();
    let r = sample_record();
    save.save_pokemon(StorageLocation::PC(3, 7), &r).unwrap();
    let out = save.raw_data();
    let off = BOX_OFFSET + (3 * 30 + 7) * RECORD_SIZE;
    assert_eq!(&out[off..off + RECORD_SIZE], &encode(&r)[..]);
    for i in 0..SAVE_SIZE {
        if !(off <= i && i < off + RECORD_SIZE) {
            assert_eq!(out[i], bytes[i]);
        }
    }
}

#[test]
fn empty_model_refuses_operations() {
    let save = SaveFile::default();
    assert!(save.is_empty());
    assert!(matches!(save.get_party(), Err(Error::NoFileOpened)));
    assert!(matches!(save.pc_box(0), Err(Error::NoFileOpened)));
    assert!(matches!(
        save.pocket(pk_editor::pocket::Pocket::Items),
        Err(Error::NoFileOpened)
    ));
    let mut save = save;
    assert!(matches!(
        save.save_pokemon(StorageLocation::Party(0), &sample_record()),
        Err(Error::NoFileOpened)
    ));
}

#[test]
fn out_of_range_indices_are_refused() {
    let mut save = blank_save();
    assert!(matches!(save.pc_box(BOX_COUNT), Err(Error::OutOfBounds)));
    assert!(matches!(
        save.save_pokemon(StorageLocation::Party(6), &sample_record()),
        Err(Error::OutOfBounds)
    ));
    assert!(matches!(
        save.save_pokemon(StorageLocation::PC(14, 0), &sample_record()),
        Err(Error::OutOfBounds)
    ));
    assert!(matches!(
        save.save_pokemon(StorageLocation::PC(0, 30), &sample_record()),
        Err(Error::OutOfBounds)
    ));
}

#[test]
fn cursor_reads_and_writes_are_bounds_checked() {
    let mut save = blank_save();
    save.write_u16(0x100, 0xBEEF).unwrap();
    assert_eq!(save.read_u16(0x100).unwrap(), 0xBEEF);
    assert_eq!(save.read_u8(0x100).unwrap(), 0xEF);
    assert_eq!(save.read_u8(0x101).unwrap(), 0xBE);
    save.write_u32(0x200, 0xDEADBEEF).unwrap();
    assert_eq!(save.read_u32(0x200).unwrap(), 0xDEADBEEF);
    assert_eq!(save.read_u16(0x202).unwrap(), 0xDEAD);
    let tail = save.read_bytes(SAVE_SIZE - 4, 4).unwrap();
    assert_eq!(tail, vec![0, 0, 0, 0]);
    assert!(matches!(save.read_u16(SAVE_SIZE - 1), Err(Error::OutOfBounds)));
    assert!(matches!(save.read_u32(SAVE_SIZE - 3), Err(Error::OutOfBounds)));
    assert!(matches!(save.write_u8(SAVE_SIZE, 1), Err(Error::OutOfBounds)));
    assert!(matches!(
        save.write_bytes(SAVE_SIZE - 1, &vec![1, 2]),
        Err(Error::OutOfBounds)
    ));
}

#[test]
fn party_reads_back_saved_records() {
    let mut save = blank_save();
    let mut r = sample_record();
    r.update_checksum();
    save.save_pokemon(StorageLocation::Party(0), &r).unwrap();
    let party = save.get_party().unwrap();
    assert_eq!(party.len(), 6);
    assert_eq!(party[0], r);
    assert!(party[1].is_empty());
    assert!(party[5].is_empty());
}

#[test]
fn friendship_edit_round_trips_through_the_buffer() {
    // A save whose party slot 0 holds species 25 at level 50 with
    // friendship 70; raising friendship to 255 and committing changes only
    // that field, and the stored checksum still verifies.
    let mut session = Session::new();
    session.load_bytes(vec![0u8; SAVE_SIZE]).unwrap();
    let initial = sample_record();
    session.save.save_pokemon(StorageLocation::Party(0), &initial).unwrap();

    let party = session.save.get_party().unwrap();
    assert_eq!(party[0].friendship, 70);
    session.select(StorageLocation::Party(0), party[0].clone());
    session.friendship_input_changed("255");
    session.commit_selected().unwrap();

    let raw = session.save.raw_data();
    let reloaded = SaveFile::load(raw).unwrap();
    let party = reloaded.get_party().unwrap();
    assert_eq!(party[0].friendship, 255);
    assert_eq!(party[0].species, 25);
    assert_eq!(party[0].level, 50);
    let record_bytes: Vec<u8> = reloaded
        .read_bytes(PARTY_OFFSET, RECORD_SIZE)
        .unwrap();
    assert!(checksum_valid(&record_bytes));
}

#[test]
fn box_navigation_wraps_both_ways() {
    let mut session = Session::new();
    session.load_bytes(vec![0u8; SAVE_SIZE]).unwrap();
    // Navigation is idle while the boxes are empty.
    assert!(session.save.is_pc_empty());
    session.increment_box();
    assert_eq!(session.box_index, 0);
    // Give the boxes one creature; the ring then turns.
    session
        .save
        .save_pokemon(StorageLocation::PC(2, 4), &sample_record())
        .unwrap();
    assert!(!session.save.is_pc_empty());
    session.box_index = 13;
    session.increment_box();
    assert_eq!(session.box_index, 0);
    session.decrement_box();
    assert_eq!(session.box_index, 13);
    for expected in [0, 1, 2] {
        session.increment_box();
        assert_eq!(session.box_index, expected);
    }
}

#[test]
fn level_input_clamps_between_lowest_and_hundred() {
    let mut session = Session::new();
    session.load_bytes(vec![0u8; SAVE_SIZE]).unwrap();
    session.select(StorageLocation::Party(0), sample_record());
    session.level_input_changed("250", 5);
    assert_eq!(session.selected.as_ref().unwrap().record.level, 100);
    session.level_input_changed("2", 5);
    assert_eq!(session.selected.as_ref().unwrap().record.level, 5);
    session.level_input_changed("63", 5);
    assert_eq!(session.selected.as_ref().unwrap().record.level, 63);
    session.level_input_changed("no digits here", 5);
    assert_eq!(session.selected.as_ref().unwrap().record.level, 63);
}

#[test]
fn stat_inputs_follow_the_text_field_rules() {
    let mut session = Session::new();
    session.load_bytes(vec![0u8; SAVE_SIZE]).unwrap();
    session.select(StorageLocation::Party(0), sample_record());
    session.iv_input_changed(StatKind::Hp, "2x7");
    assert_eq!(session.selected.as_ref().unwrap().record.ivs[0], 27);
    session.iv_input_changed(StatKind::Hp, "4000");
    assert_eq!(session.selected.as_ref().unwrap().record.ivs[0], 31);
    session.iv_input_changed(StatKind::Hp, "");
    assert_eq!(session.selected.as_ref().unwrap().record.ivs[0], 0);
    session.iv_input_changed(StatKind::Hp, "99999");
    assert_eq!(session.selected.as_ref().unwrap().record.ivs[0], 0);
    session.ev_input_changed(StatKind::Speed, "777");
    assert_eq!(session.selected.as_ref().unwrap().record.evs[5], 252);
    session.ev_input_changed(StatKind::Speed, "abc");
    assert_eq!(session.selected.as_ref().unwrap().record.evs[5], 0);
}

#[test]
fn pokerus_cycle_through_the_session() {
    let mut session = Session::new();
    session.load_bytes(vec![0u8; SAVE_SIZE]).unwrap();
    session.select(StorageLocation::Party(0), sample_record());
    let status = |s: &Session| s.selected.as_ref().unwrap().record.pokerus_status();
    assert_eq!(status(&session), Pokerus::Clear);
    session.change_pokerus_status();
    assert_eq!(status(&session), Pokerus::Infected);
    session.change_pokerus_status();
    assert_eq!(status(&session), Pokerus::Cured);
    session.change_pokerus_status();
    assert_eq!(status(&session), Pokerus::Clear);
}

#[test]
fn session_state_resets_on_load() {
    let mut session = Session::new();
    assert_eq!(session.screen, Screen::PartyBoxes);
    session.load_bytes(vec![0u8; SAVE_SIZE]).unwrap();
    session
        .save
        .save_pokemon(StorageLocation::PC(0, 0), &sample_record())
        .unwrap();
    session.box_index = 9;
    session.select(StorageLocation::Party(1), sample_record());
    assert_eq!(
        session.slot_status(StorageLocation::Party(1)),
        Status::Selected
    );
    assert_eq!(session.slot_status(StorageLocation::Party(2)), Status::Idle);
    session.load_bytes(vec![0u8; SAVE_SIZE]).unwrap();
    assert_eq!(session.box_index, 0);
    assert!(session.selected.is_none());
    // A malformed buffer is refused and the loaded save stays.
    assert!(matches!(
        session.load_bytes(vec![0u8; 3]),
        Err(Error::FormatError)
    ));
    assert!(!session.save.is_empty());
}

#[test]
fn trainer_fields_read_from_fixed_offsets() {
    let mut save = blank_save();
    save.write_bytes(0, &vec![0xBD, 0xBE, 0xBF, 0xFF, 0, 0, 0]).unwrap();
    save.write_u32(8, 424242).unwrap();
    assert_eq!(save.ot_name(), vec![0xBD, 0xBE, 0xBF, 0xFF, 0, 0, 0]);
    assert_eq!(save.ot_id(), 424242);
}

#[test]
fn digit_parsing_matches_the_field_rules() {
    assert_eq!(parse_digits_u64("123"), Some(123));
    assert_eq!(parse_digits_u64("a1b2c3"), Some(123));
    assert_eq!(parse_digits_u64(""), None);
    assert_eq!(parse_digits_u64("no digits"), None);
    assert_eq!(parse_digits_u64("18446744073709551615"), Some(u64::MAX));
    assert_eq!(parse_digits_u64("18446744073709551616"), None);
    assert_eq!(parse_digits_u16("65535"), Some(65535));
    assert_eq!(parse_digits_u16("65536"), None);
    assert_eq!(parse_digits_u16("007"), Some(7));
}

#[test]
fn pc_box_reads_back_saved_records() {
    let mut save = blank_save();
    let mut r = sample_record();
    r.update_checksum();
    save.save_pokemon(StorageLocation::PC(13, 29), &r).unwrap();
    let last_box = save.pc_box(13).unwrap();
    assert_eq!(last_box.len(), 30);
    assert_eq!(last_box[29], r);
    assert!(last_box[0].is_empty());
    let first_box = save.pc_box(0).unwrap();
    assert!(first_box.iter().all(|rec| rec.is_empty()));
}

#[test]
fn commit_writes_to_a_box_location() {
    let mut session = Session::new();
    session.load_bytes(vec![0u8; SAVE_SIZE]).unwrap();
    session.select(StorageLocation::PC(5, 11), sample_record());
    session.change_pokerus_status();
    session.commit_selected().unwrap();
    let the_box = session.save.pc_box(5).unwrap();
    assert_eq!(the_box[11].pokerus_status(), Pokerus::Infected);
    assert_eq!(the_box[11].species, 25);
    // Committing with nothing selected changes nothing.
    let before = session.save.raw_data();
    session.clear_selection();
    session.commit_selected().unwrap();
    assert_eq!(session.save.raw_data(), before);
}

#[test]
fn trainer_fields_default_when_no_file_is_open() {
    let save = SaveFile::default();
    assert!(save.ot_name().is_empty());
    assert_eq!(save.ot_id(), 0);
}
