use pk_editor::checksum::checksum;
use pk_editor::record::{
    checksum_valid, decode, encode, CreatureRecord, Pokerus, StatKind, RECORD_SIZE,
};
use pk_editor::shuffle::{apply_shuffle, invert_shuffle};

fn sample_record() -> CreatureRecord {
    CreatureRecord {
        personality_value: 0xDEADBEEF,
        ot_id: 0x12345678,
        nickname: vec![0xC9, 0xC3, 0xC5, 0xBB, 0xBD, 0xC2, 0xFF, 0x00, 0x00, 0x00],
        language: 0x0202,
        ot_name: vec![0xBC, 0xBD, 0xBE, 0xFF, 0x00, 0x00, 0x00],
        markings: 0x05,
        checksum: 0,
        level: 50,
        reserved: 0,
        species: 25,
        held_item: 13,
        experience: 125000,
        pp_bonuses: 0,
        friendship: 70,
        growth_filler: 0xABCD,
        moves: vec![85, 98, 86, 24],
        pp: vec![20, 30, 20, 20],
        evs: vec![4, 252, 0, 252, 0, 2],
        condition: vec![0, 0, 0, 0, 0, 0],
        pokerus: 0,
        ability: 1,
        ivs: vec![31, 30, 29, 28, 27, 26],
        ribbons: 0x00010001,
    }
}

#[test]
fn record_roundtrip_preserves_every_field() {
    let mut r = sample_record();
    // Align the stored checksum field with what encoding writes, so the
    // decoded record compares equal on every field.
    r.update_checksum();
    let bytes = encode(&r);
    assert_eq!(bytes.len(), RECORD_SIZE);
    let d = decode(&bytes);
    assert_eq!(d, r);
}

#[test]
fn record_roundtrip_across_all_shuffle_orders() {
    for k in 0u32..24 {
        let mut r = sample_record();
        r.personality_value = 1000 * k + k; // covers every residue mod 24
        r.update_checksum();
        let d = decode(&encode(&r));
        assert_eq!(d, r);
    }
}

#[test]
fn encoded_record_checksum_verifies() {
    let r = sample_record();
    let bytes = encode(&r);
    assert!(checksum_valid(&bytes));
    // Any data-region corruption of one byte breaks the stored checksum.
    let mut corrupt = bytes.clone();
    corrupt[40] = corrupt[40].wrapping_add(1);
    assert!(!checksum_valid(&corrupt));
}

#[test]
fn all_zero_block_decodes_to_the_empty_record() {
    let zeros = vec![0u8; RECORD_SIZE];
    let r = decode(&zeros);
    assert!(r.is_empty());
    assert_eq!(r.species, 0);
    assert_eq!(r.personality_value, 0);
    assert_eq!(r, CreatureRecord::empty());
}

#[test]
fn checksum_is_deterministic_and_sensitive() {
    let data: Vec<u8> = (0..48u8).collect();
    assert_eq!(checksum(&data), checksum(&data));
    for i in 0..48 {
        let mut mutated = data.clone();
        mutated[i] = mutated[i].wrapping_add(1);
        assert_ne!(checksum(&mutated), checksum(&data));
    }
}

#[test]
fn checksum_sums_little_endian_words() {
    let mut data = vec![0u8; 48];
    data[0] = 0x34;
    data[1] = 0x12;
    assert_eq!(checksum(&data), 0x1234);
    // Wraparound: two words of 0x8001 sum to 0x10002, kept to 16 bits.
    let mut data = vec![0u8; 4];
    data[0] = 0x01;
    data[1] = 0x80;
    data[2] = 0x01;
    data[3] = 0x80;
    assert_eq!(checksum(&data), 0x0002);
}

#[test]
fn shuffle_inverts_for_every_order() {
    let data: Vec<u8> = (0..48u8).collect();
    for k in 0u32..24 {
        for pv in [k, 24 + k, 240 + k, 0xFFFFFFE8u32.wrapping_add(k)] {
            let shuffled = apply_shuffle(&data, pv);
            let back = invert_shuffle(&shuffled, pv);
            assert_eq!(back, data);
        }
    }
}

#[test]
fn shuffle_moves_blocks_whole() {
    let data: Vec<u8> = (0..48u8).collect();
    // Residue 23 stores the logical blocks in reverse order.
    let shuffled = apply_shuffle(&data, 23);
    let mut expected: Vec<u8> = Vec::new();
    expected.extend_from_slice(&data[36..48]);
    expected.extend_from_slice(&data[24..36]);
    expected.extend_from_slice(&data[12..24]);
    expected.extend_from_slice(&data[0..12]);
    assert_eq!(shuffled, expected);
    // Residue 0 is the identity order.
    assert_eq!(apply_shuffle(&data, 24), data);
}

#[test]
fn pokerus_cycle_walks_clear_infected_cured() {
    let mut r = sample_record();
    assert_eq!(r.pokerus_status(), Pokerus::Clear);
    r.change_pokerus_status();
    assert_eq!(r.pokerus_status(), Pokerus::Infected);
    r.change_pokerus_status();
    assert_eq!(r.pokerus_status(), Pokerus::Cured);
    r.change_pokerus_status();
    assert_eq!(r.pokerus_status(), Pokerus::Clear);
}

#[test]
fn pokerus_cure_and_remove_are_distinct() {
    let mut r = sample_record();
    assert!(r.infect_pokerus());
    assert!(!r.infect_pokerus()); // already infected
    assert_eq!(r.pokerus_status(), Pokerus::Infected);
    assert!(r.cure_pokerus());
    assert_eq!(r.pokerus_status(), Pokerus::Cured); // strain kept
    assert!(r.pokerus & 0xF0 != 0);
    assert!(r.remove_pokerus());
    assert_eq!(r.pokerus_status(), Pokerus::Clear);
    assert_eq!(r.pokerus, 0);
}

#[test]
fn nature_follows_personality_value() {
    let mut r = sample_record();
    assert_eq!(r.nature() as u32, r.personality_value % 25);
    for n in 0u8..25 {
        r.set_nature(n);
        assert_eq!(r.nature(), n);
        assert_eq!(r.personality_value % 25, n as u32);
    }
    // The clamp near the top of the 32-bit range still lands on the nature.
    r.personality_value = u32::MAX;
    r.set_nature(24);
    assert_eq!(r.nature(), 24);
}

#[test]
fn stat_updates_clamp_to_format_maxima() {
    let mut r = sample_record();
    r.update_iv(StatKind::Speed, 999);
    assert_eq!(r.ivs[5], 31);
    r.update_iv(StatKind::Hp, 7);
    assert_eq!(r.ivs[0], 7);
    r.update_ev(StatKind::Attack, 999);
    assert_eq!(r.evs[1], 252);
    r.update_ev(StatKind::SpDef, 100);
    assert_eq!(r.evs[4], 100);
}

#[test]
fn set_move_fills_power_points() {
    let mut r = sample_record();
    r.set_move(2, 89, 10);
    assert_eq!(r.moves[2], 89);
    assert_eq!(r.pp[2], 10);
}
