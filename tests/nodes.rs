use zenva_101_lib::{is_player, CameraController, Coin, Vector2, UI};

#[test]
fn coin_defaults() {
    let c = Coin::new();
    assert_eq!(c.rotation_speed, 90);
    assert_eq!(c.value, 1);
}

#[test]
fn coin_turn_in_millidegrees() {
    let c = Coin::new();
    assert_eq!(c.process(16), 1440);
    let back = Coin { rotation_speed: -90, value: 1 };
    assert_eq!(back.process(1000), -90000);
}

#[test]
fn coin_credits_player_only() {
    let c = Coin { rotation_speed: 90, value: 5 };
    assert_eq!(c.on_body_entered("Player"), Some(5));
    assert_eq!(c.on_body_entered("Enemy"), None);
}

#[test]
fn camera_follows_player_x() {
    let cam = CameraController::new();
    assert_eq!(cam.process(Vector2 { x: 3, y: 40 }, 250), Vector2 { x: 250, y: 40 });
}

#[test]
fn score_text_formats_decimal() {
    assert_eq!(UI::score_text(0), "0");
    assert_eq!(UI::score_text(15), "15");
    assert_eq!(UI::score_text(1204), "1204");
    assert_eq!(UI::score_text(-7), "-7");
    assert_eq!(UI::score_text(i32::MAX), "2147483647");
    assert_eq!(UI::score_text(i32::MIN), "-2147483648");
}

#[test]
fn initial_text_is_zero() {
    assert_eq!(UI::initial_text(), "0");
}

#[test]
fn player_name_check() {
    assert!(is_player("Player"));
    assert!(!is_player("Playe"));
    assert!(!is_player("Coin"));
}
