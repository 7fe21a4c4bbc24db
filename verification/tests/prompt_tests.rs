use blueprint_core::chat::{AiMessage, ChatInput, prepare_chat};
use blueprint_core::prompt::{Date, build_system_prompt, format_date};
use blueprint_core::settings::StoredSettings;
use blueprint_core::text::{decimal_string, strip_trailing_slashes, trim};

#[test]
fn date_is_rendered_iso_with_zero_padding() {
    assert_eq!(format_date(&Date { year: 2024, month: 3, day: 7 }), "2024-03-07");
    assert_eq!(format_date(&Date { year: 2024, month: 11, day: 23 }), "2024-11-23");
    assert_eq!(format_date(&Date { year: 999, month: 12, day: 31 }), "0999-12-31");
    assert_eq!(format_date(&Date { year: 1, month: 1, day: 1 }), "0001-01-01");
}

#[test]
fn date_rendering_matches_chrono() {
    let d = chrono::NaiveDate::from_ymd_opt(2025, 2, 9).unwrap();
    assert_eq!(
        format_date(&Date { year: 2025, month: 2, day: 9 }),
        d.format("%Y-%m-%d").to_string()
    );
}

#[test]
fn prompt_is_the_template_with_the_date_appended() {
    let d = Date { year: 2024, month: 5, day: 17 };
    let p = build_system_prompt(&d);
    assert!(p.starts_with("Ты Blueprint"));
    assert!(p.contains("\"add_client\""));
    assert!(p.contains("\"mark_payment\""));
    assert!(p.ends_with("Текущая дата: 2024-05-17"));
}

#[test]
fn prompt_is_deterministic_in_the_date() {
    let d = Date { year: 2030, month: 1, day: 2 };
    assert_eq!(build_system_prompt(&d), build_system_prompt(&d));
}

#[test]
fn prompt_template_is_stable_across_dates() {
    let a = build_system_prompt(&Date { year: 2024, month: 5, day: 17 });
    let b = build_system_prompt(&Date { year: 2031, month: 12, day: 1 });
    let cut = "Текущая дата: ";
    let stem_a = &a[..a.find(cut).unwrap() + cut.len()];
    let stem_b = &b[..b.find(cut).unwrap() + cut.len()];
    assert_eq!(stem_a, stem_b);
}

#[test]
fn prepared_chat_carries_the_current_date() {
    let before = chrono::Utc::now().date_naive().format("%Y-%m-%d").to_string();
    let stored = StoredSettings {
        ai_provider: "openai".to_string(),
        ai_model: "m".to_string(),
        ai_base_url: "".to_string(),
        ai_api_key: "k".to_string(),
    };
    let input = ChatInput {
        messages: vec![AiMessage { role: "user".to_string(), content: "hi".to_string() }],
        provider: None,
        model: None,
        base_url: None,
    };
    let p = prepare_chat(input, &stored).unwrap();
    let after = chrono::Utc::now().date_naive().format("%Y-%m-%d").to_string();
    let system = p.request.body.get("messages").unwrap().at(0).unwrap();
    let content = system.get("content").unwrap().as_str().unwrap().to_string();
    assert!(
        content.ends_with(&format!("Текущая дата: {before}"))
            || content.ends_with(&format!("Текущая дата: {after}"))
    );
}

#[test]
fn decimal_rendering_matches_std() {
    for n in [0u64, 7, 10, 42, 100, 404, 65535, 1_000_000] {
        assert_eq!(decimal_string(n), n.to_string());
    }
}

#[test]
fn trim_matches_std_trim() {
    for s in ["", "   ", "a", " a ", "\t\nпривет мир\r\n", "\u{2028}x\u{205F}"] {
        assert_eq!(trim(s), s.trim());
    }
}

#[test]
fn trailing_slashes_are_stripped() {
    assert_eq!(strip_trailing_slashes("http://x/y/"), "http://x/y");
    assert_eq!(strip_trailing_slashes("http://x///"), "http://x");
    assert_eq!(strip_trailing_slashes("http://x"), "http://x");
    assert_eq!(strip_trailing_slashes(""), "");
    assert_eq!(strip_trailing_slashes("///"), "");
}

#[test]
fn expired_service_is_flagged() {
    let n = blueprint_core::notify::expiry_notice("VPS", "Site", "2024-01-01", -3, 7).unwrap();
    assert_eq!(n.title, "Истёк: VPS");
    assert_eq!(n.body, "Site · 2024-01-01");
}

#[test]
fn service_expiring_today() {
    let n = blueprint_core::notify::expiry_notice("VPS", "Site", "2024-01-01", 0, 7).unwrap();
    assert_eq!(n.title, "Истекает сегодня: VPS");
}

#[test]
fn service_expiring_within_window() {
    let n = blueprint_core::notify::expiry_notice("Домен", "Сайт", "2024-06-01", 5, 7).unwrap();
    assert_eq!(n.title, "Истекает через 5 дн: Домен");
    assert_eq!(n.body, "Сайт · 2024-06-01");
}

#[test]
fn service_outside_window_is_silent() {
    assert!(blueprint_core::notify::expiry_notice("VPS", "Site", "2024-06-01", 8, 7).is_none());
    // the boundary itself still notifies
    assert!(blueprint_core::notify::expiry_notice("VPS", "Site", "2024-06-01", 7, 7).is_some());
}
