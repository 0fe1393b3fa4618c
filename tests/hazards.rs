use krab_kart::hazards::{fireball_expired, retain_flagged, sweep_hazards, Contact, FIREBALL_TTL};
use krab_kart::kart::{Kart, BANANA_KNOCKOUT, ENEMY_KNOCKOUT, FIREBALL_KNOCKOUT};

fn contact(kart1: bool, kart2: bool, expired: bool) -> Contact {
    Contact { kart1, kart2, expired }
}

#[test]
fn fireball_lifetime() {
    assert_eq!(FIREBALL_TTL, 8_000_000_000);
    assert!(!fireball_expired(0));
    assert!(!fireball_expired(8_000_000_000));
    assert!(fireball_expired(8_000_000_001));
}

#[test]
fn fireball_burns_out_after_ttl() {
    // Ticks of 1/60 s: by 8.01 s the fireball has burnt out.
    let dt: u64 = 16_666_667;
    let mut age: u64 = 0;
    let mut kept = true;
    let mut k1 = Kart::new();
    let mut k2 = Kart::new();
    while age < 8_010_000_000 && kept {
        age += dt;
        let keep = sweep_hazards(&mut k1, &mut k2, &vec![contact(false, false, fireball_expired(age))], FIREBALL_KNOCKOUT);
        kept = keep[0];
    }
    assert!(!kept);
    assert!(age > FIREBALL_TTL && age <= 8_010_000_000);
    assert!(!k1.knocked_out() && !k2.knocked_out());
}

#[test]
fn sweep_removes_touched_and_expired() {
    let mut k1 = Kart::new();
    let mut k2 = Kart::new();
    let contacts = vec![
        contact(false, false, false),
        contact(false, true, false),
        contact(false, false, true),
        contact(false, false, false),
    ];
    let keep = sweep_hazards(&mut k1, &mut k2, &contacts, BANANA_KNOCKOUT);
    assert_eq!(keep, vec![true, false, false, true]);
    assert_eq!(k1.knock_out, 0);
    assert_eq!(k2.knock_out, BANANA_KNOCKOUT);
}

#[test]
fn hazard_touching_both_is_spent_on_first_kart() {
    let mut k1 = Kart::new();
    let mut k2 = Kart::new();
    let keep = sweep_hazards(&mut k1, &mut k2, &vec![contact(true, true, false)], FIREBALL_KNOCKOUT);
    assert_eq!(keep, vec![false]);
    assert_eq!(k1.knock_out, FIREBALL_KNOCKOUT);
    assert_eq!(k2.knock_out, 0);
}

#[test]
fn sweep_keeps_running_knockout() {
    let mut k1 = Kart::new();
    k1.hit(ENEMY_KNOCKOUT);
    let mut k2 = Kart::new();
    let keep = sweep_hazards(
        &mut k1,
        &mut k2,
        &vec![contact(true, false, false), contact(true, false, false)],
        BANANA_KNOCKOUT,
    );
    assert_eq!(keep, vec![false, false]);
    assert_eq!(k1.knock_out, ENEMY_KNOCKOUT);
}

#[test]
fn sweep_of_nothing() {
    let mut k1 = Kart::new();
    let mut k2 = Kart::new();
    assert!(sweep_hazards(&mut k1, &mut k2, &vec![], BANANA_KNOCKOUT).is_empty());
    assert_eq!(k1, Kart::new());
    assert_eq!(k2, Kart::new());
}

#[test]
fn retain_keeps_order() {
    let mut items = vec!['a', 'b', 'c', 'd', 'e'];
    retain_flagged(&mut items, &vec![true, false, true, false, true]);
    assert_eq!(items, vec!['a', 'c', 'e']);
}

#[test]
fn retain_all_or_nothing() {
    let mut items = vec![1, 2, 3];
    retain_flagged(&mut items, &vec![true, true, true]);
    assert_eq!(items, vec![1, 2, 3]);
    retain_flagged(&mut items, &vec![false, false, false]);
    assert!(items.is_empty());
    retain_flagged(&mut items, &vec![]);
    assert!(items.is_empty());
}

#[test]
fn sweep_then_retain() {
    let mut k1 = Kart::new();
    let mut k2 = Kart::new();
    let mut bananas = vec![10, 20, 30];
    let keep = sweep_hazards(
        &mut k1,
        &mut k2,
        &vec![contact(false, false, false), contact(true, false, false), contact(false, false, false)],
        BANANA_KNOCKOUT,
    );
    retain_flagged(&mut bananas, &keep);
    assert_eq!(bananas, vec![10, 30]);
    assert_eq!(k1.knock_out, BANANA_KNOCKOUT);
}
