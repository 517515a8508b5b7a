use buckshot::bullet::Bullet::Blank;
use buckshot::bullet::Bullet::Live;
use buckshot::bullet::Item::Beer;
use buckshot::bullet::Item::Cigarette;
use buckshot::bullet::Item::Handcuffs;
use buckshot::bullet::Item::Magnifier;
use buckshot::bullet::Item::Saw;
use buckshot::player::Player;
use buckshot::shotgun::Shotgun;

#[test]
fn actual_first_level() {
    let mut player = Player {
        name: "name".into(),
        ..Default::default()
    };
    let mut dealer = Player {
        name: "dealer".into(),
        ..Default::default()
    };

    let mut shotgun = Shotgun {
        magazine: vec![Blank, Live, Blank],
        ..Default::default()
    };

    assert_eq!(shotgun.magazine.len(), 3);
    let _ = shotgun.pull_on(&mut player);
    assert_eq!(shotgun.magazine.len(), 2);
    assert_eq!(player.lives, 2);

    let _ = shotgun.pull_on(&mut dealer);
    assert_eq!(shotgun.magazine.len(), 1);
    assert_eq!(dealer.lives, 1);

    shotgun.magazine = vec![Live, Blank, Live, Blank, Live];
    assert_eq!(shotgun.magazine.len(), 5);

    let _ = shotgun.pull_on(&mut dealer);
    assert_eq!(shotgun.magazine.len(), 4);
    assert_eq!(dealer.lives, 0);
}

#[test]
fn actual_second_level() {
    let mut player = Player {
        name: "name".into(),
        lives: 4,
        inventory: vec![Saw, Handcuffs],
        ..Default::default()
    };
    let mut dealer = Player {
        name: "dealer".into(),
        lives: 4,
        inventory: vec![Saw, Saw],
        ..Default::default()
    };

    let mut gun = Shotgun {
        magazine: vec![Live, Blank],
        ..Default::default()
    };

    assert!(player.inventory.contains(&Saw));
    player.try_saw(&mut gun);
    assert!(!player.inventory.contains(&Saw));

    gun.sawed = true;
    assert!(gun.sawed);
    assert_eq!(gun.magazine.len(), 2);

    let _ = gun.pull_on(&mut player);
    assert_eq!(gun.magazine.len(), 1);
    assert_eq!(player.lives, 4);

    let _ = gun.pull_on(&mut dealer);
    assert_eq!(dealer.lives, 3);

    player.inventory.extend(vec![Magnifier, Saw]);
    dealer.inventory.extend(vec![Magnifier, Beer]);

    gun.magazine = vec![Live, Blank, Blank, Live];

    assert!(player.inventory.contains(&Magnifier));
    let next = player.try_magnifier(&gun).unwrap();
    assert!(!player.inventory.contains(&Magnifier));

    assert_eq!(next, Live);

    player.try_saw(&mut gun);

    let _ = gun.pull_on(&mut dealer);
    assert_eq!(dealer.lives, 1);

    let next = dealer.try_magnifier(&gun).unwrap();
    assert_eq!(next, Blank);

    let next = dealer.try_beer(&mut gun).unwrap();
    assert_eq!(next, Blank);

    assert_eq!(dealer.lives, 1);
    let _ = gun.pull_on(&mut dealer);
    assert_eq!(dealer.lives, 1);

    dealer.try_saw(&mut gun);

    assert_eq!(player.lives, 4);
    let _ = gun.pull_on(&mut player);
    assert_eq!(player.lives, 2);

    player.inventory.extend(vec![Cigarette, Magnifier]);
    dealer.inventory.extend(vec![Cigarette, Handcuffs]);

    gun.magazine = vec![Live, Blank, Live, Blank, Live];

    player.try_cigarette();
    assert_eq!(player.lives, 3);

    let _ = gun.pull_on(&mut dealer);
    assert_eq!(dealer.lives, 0);
}

#[test]
fn actual_third_level() {
    let mut player = Player {
        name: "name".into(),
        lives: 6,
        inventory: vec![Cigarette, Cigarette, Magnifier, Magnifier],
        ..Default::default()
    };
    let mut dealer = Player {
        name: "dealer".into(),
        lives: 6,
        inventory: vec![Cigarette, Cigarette, Magnifier, Beer],
        ..Default::default()
    };

    let mut gun = Shotgun {
        magazine: vec![Live, Blank, Blank],
        ..Default::default()
    };

    let next = player.try_magnifier(&gun).unwrap();
    assert_eq!(next, Blank);

    let _ = gun.pull_on(&mut player);
    assert_eq!(player.lives, 6);

    let _ = gun.pull_on(&mut dealer);
    assert_eq!(dealer.lives, 6);

    let _ = gun.pull_on(&mut player);
    assert_eq!(player.lives, 5);

    player.inventory.extend(vec![Handcuffs, Saw, Saw, Beer]);
    dealer
        .inventory
        .extend(vec![Handcuffs, Handcuffs, Magnifier, Saw]);

    gun.magazine = vec![Live, Live, Live, Blank, Blank, Live, Blank, Blank];

    player.try_cigarette();
    let next = player.try_magnifier(&gun).unwrap();
    assert_eq!(next, Blank);

    player.try_saw(&mut gun);

    assert!(!dealer.cuffed);
    player.try_cuff(&mut dealer);
    assert!(dealer.cuffed);

    let _ = gun.pull_on(&mut dealer);
    assert_eq!(dealer.lives, 6);
}
