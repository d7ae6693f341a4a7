use eye_rest::cycle::RestType;
use eye_rest::messages::{
    compose_message, fill_template, get_eye_rest_message, get_walk_message, get_water_message,
    message_at, rest_reminder, EYE_REST_TABLE, WALK_TABLE, WATER_TABLE,
};

#[test]
fn fill_replaces_every_placeholder() {
    assert_eq!(fill_template("a{}b{}c", "7"), "a7b7c");
    assert_eq!(fill_template("no placeholder", "7"), "no placeholder");
    assert_eq!(fill_template("", "7"), "");
    assert_eq!(fill_template("{}", "20"), "20");
    assert_eq!(fill_template("{{}}", "x"), "{x}");
    assert_eq!(fill_template("休息 {} 秒", "20"), "休息 20 秒");
}

#[test]
fn fill_leaves_doubled_braces() {
    assert_eq!(
        fill_template("while(眼睛疲劳) {{ break; }} // 休息 {} 秒", "15"),
        "while(眼睛疲劳) {{ break; }} // 休息 15 秒"
    );
}

#[test]
fn tables_are_filled() {
    for table in [&EYE_REST_TABLE[..], &WATER_TABLE[..], &WALK_TABLE[..]] {
        assert!(!table.is_empty());
        for i in 0..table.len() {
            let (headline, message) = message_at(table, i, 45);
            assert_eq!(headline, table[i].0);
            assert_eq!(message, table[i].1.replace("{}", "45"));
            assert!(message.contains("45"));
            assert!(!message.contains("{}"));
            assert!(!headline.is_empty());
        }
    }
    assert_eq!(EYE_REST_TABLE.len(), 28);
    assert_eq!(WATER_TABLE.len(), 25);
    assert_eq!(WALK_TABLE.len(), 32);
}

#[test]
fn random_messages_come_from_tables() {
    for _ in 0..200 {
        let (h, m) = get_eye_rest_message(20);
        assert!(EYE_REST_TABLE.iter().any(|t| t.0 == h && t.1.replace("{}", "20") == m));
        let (h, m) = get_water_message(30);
        assert!(WATER_TABLE.iter().any(|t| t.0 == h && t.1.replace("{}", "30") == m));
        let (h, m) = get_walk_message(40);
        assert!(WALK_TABLE.iter().any(|t| t.0 == h && t.1.replace("{}", "40") == m));
    }
}

#[test]
fn compose_appends_reminder_beneath_eye_message() {
    assert_eq!(compose_message(RestType::EyeRest, "eye".to_string(), "x"), "eye");
    assert_eq!(compose_message(RestType::Water, "eye".to_string(), "x"), "eye\n\n💧 顺便提醒：x");
    assert_eq!(compose_message(RestType::Walk, "eye".to_string(), "x"), "eye\n\n🚶 顺便提醒：x");
}

#[test]
fn rest_reminder_always_leads_with_eye_rest() {
    for _ in 0..50 {
        let (h, m) = rest_reminder(RestType::EyeRest, 20);
        assert!(EYE_REST_TABLE.iter().any(|t| t.0 == h));
        assert!(!m.contains("顺便提醒"));
        let (h, m) = rest_reminder(RestType::Water, 20);
        assert!(EYE_REST_TABLE.iter().any(|t| t.0 == h));
        let (eye, extra) = m.split_once("\n\n💧 顺便提醒：").expect("water note");
        assert!(EYE_REST_TABLE.iter().any(|t| t.1.replace("{}", "20") == eye));
        assert!(WATER_TABLE.iter().any(|t| t.1.replace("{}", "20") == extra));
        let (_, m) = rest_reminder(RestType::Walk, 20);
        let (_, extra) = m.split_once("\n\n🚶 顺便提醒：").expect("walk note");
        assert!(WALK_TABLE.iter().any(|t| t.1.replace("{}", "20") == extra));
    }
}
