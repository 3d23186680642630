use pk_editor::error::Error;
use pk_editor::pocket::{ItemSlot, Pocket, MAX_QUANTITY, NOTHING};
use pk_editor::savefile::{SaveFile, SAVE_SIZE};
use pk_editor::session::Session;

const POTION: u16 = 13;

fn loaded_session() -> Session {
    let mut session = Session::new();
    session.load_bytes(vec![0u8; SAVE_SIZE]).unwrap();
    session
}

fn slots_with(kind: Pocket, save: &SaveFile) -> Vec<ItemSlot> {
    save.pocket(kind).unwrap()
}

#[test]
fn save_pocket_enforces_the_slot_invariant() {
    let mut session = loaded_session();
    let mut slots = slots_with(Pocket::Items, &session.save);
    // Deliberately inconsistent intermediate states.
    slots[0] = ItemSlot { item: 5, quantity: 0 };
    slots[1] = ItemSlot { item: NOTHING, quantity: 7 };
    slots[2] = ItemSlot { item: 3, quantity: 150 };
    slots[3] = ItemSlot { item: 9, quantity: 99 };
    session.save.save_pocket(Pocket::Items, &slots).unwrap();
    let read = slots_with(Pocket::Items, &session.save);
    assert_eq!(read[0], ItemSlot { item: NOTHING, quantity: 0 });
    assert_eq!(read[1], ItemSlot { item: NOTHING, quantity: 0 });
    assert_eq!(read[2], ItemSlot { item: 3, quantity: MAX_QUANTITY });
    assert_eq!(read[3], ItemSlot { item: 9, quantity: 99 });
    for s in read {
        assert_eq!(s.quantity == 0, s.item == NOTHING);
        assert!(s.quantity <= MAX_QUANTITY);
    }
}

#[test]
fn save_pocket_checks_length_and_presence() {
    let mut session = Session::new();
    let slots = vec![ItemSlot { item: 1, quantity: 1 }; 30];
    assert!(matches!(
        session.save.save_pocket(Pocket::Items, &slots),
        Err(Error::NoFileOpened)
    ));
    let mut session = loaded_session();
    let short = vec![ItemSlot { item: 1, quantity: 1 }; 29];
    assert!(matches!(
        session.save.save_pocket(Pocket::Items, &short),
        Err(Error::OutOfBounds)
    ));
}

#[test]
fn every_pocket_has_its_own_table() {
    let mut session = loaded_session();
    let kinds = [
        Pocket::Items,
        Pocket::Pokeballs,
        Pocket::Berries,
        Pocket::Tms,
        Pocket::Key,
    ];
    for (n, kind) in kinds.iter().enumerate() {
        let mut slots = slots_with(*kind, &session.save);
        slots[0] = ItemSlot { item: 100 + n as u16, quantity: 1 + n as u16 };
        session.save.save_pocket(*kind, &slots).unwrap();
    }
    for (n, kind) in kinds.iter().enumerate() {
        let read = slots_with(*kind, &session.save);
        assert_eq!(read[0], ItemSlot { item: 100 + n as u16, quantity: 1 + n as u16 });
    }
}

#[test]
fn quantity_text_field_drives_the_slot() {
    // Pocket Items slot 3 holds a potion with a count of zero, as a save
    // written by another tool may; typing "5" gives five potions, typing
    // "0" then empties the slot entirely.
    let mut session = loaded_session();
    // Craft the inconsistent stored state directly in the buffer.
    let off = 0x0700 + 4 * 3;
    session.save.write_u16(off, POTION).unwrap();
    session.save.write_u16(off + 2, 0).unwrap();
    let read = slots_with(Pocket::Items, &session.save);
    assert_eq!(read[3], ItemSlot { item: POTION, quantity: 0 });

    session.pocket_quantity_changed(Pocket::Items, 3, "5").unwrap();
    let read = slots_with(Pocket::Items, &session.save);
    assert_eq!(read[3], ItemSlot { item: POTION, quantity: 5 });

    session.pocket_quantity_changed(Pocket::Items, 3, "0").unwrap();
    let read = slots_with(Pocket::Items, &session.save);
    assert_eq!(read[3], ItemSlot { item: NOTHING, quantity: 0 });
}

#[test]
fn quantity_text_field_caps_and_filters() {
    let mut session = loaded_session();
    session.pocket_item_changed(Pocket::Berries, 2, 150).unwrap();
    session.pocket_quantity_changed(Pocket::Berries, 2, "123").unwrap();
    let read = slots_with(Pocket::Berries, &session.save);
    assert_eq!(read[2], ItemSlot { item: 150, quantity: 99 });
    // Text without digits, or beyond 16 bits, changes nothing.
    session.pocket_quantity_changed(Pocket::Berries, 2, "x").unwrap();
    session.pocket_quantity_changed(Pocket::Berries, 2, "99999").unwrap();
    let read = slots_with(Pocket::Berries, &session.save);
    assert_eq!(read[2], ItemSlot { item: 150, quantity: 99 });
}

#[test]
fn picking_an_item_starts_the_count_at_one() {
    let mut session = loaded_session();
    session.pocket_item_changed(Pocket::Items, 0, 42).unwrap();
    let read = slots_with(Pocket::Items, &session.save);
    assert_eq!(read[0], ItemSlot { item: 42, quantity: 1 });
    // Changing the item of a filled slot keeps the count.
    session.pocket_quantity_changed(Pocket::Items, 0, "7").unwrap();
    session.pocket_item_changed(Pocket::Items, 0, 43).unwrap();
    let read = slots_with(Pocket::Items, &session.save);
    assert_eq!(read[0], ItemSlot { item: 43, quantity: 7 });
    // Picking the empty item clears the slot.
    session.pocket_item_changed(Pocket::Items, 0, NOTHING).unwrap();
    let read = slots_with(Pocket::Items, &session.save);
    assert_eq!(read[0], ItemSlot { item: NOTHING, quantity: 0 });
}
