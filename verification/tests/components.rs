use vite_app_core::components::{
    button_style, card_class, name_initial, todo_stats, todo_summary, ButtonSize, ButtonVariant,
    CardConfig, Priority, TodoItem,
};

fn item(id: u32, completed: bool) -> TodoItem {
    TodoItem {
        id,
        text: format!("item {}", id),
        completed,
        priority: Priority::Medium,
        created_at: "2024-01-01".to_string(),
    }
}

#[test]
fn priority_colours() {
    assert_eq!(Priority::Low.to_color(), "#28a745");
    assert_eq!(Priority::Medium.to_color(), "#ffc107");
    assert_eq!(Priority::High.to_color(), "#fd7e14");
    assert_eq!(Priority::Urgent.to_color(), "#dc3545");
}

#[test]
fn priority_labels() {
    assert_eq!(Priority::Low.to_string(), "低");
    assert_eq!(Priority::Medium.to_string(), "中");
    assert_eq!(Priority::High.to_string(), "高");
    assert_eq!(Priority::Urgent.to_string(), "紧急");
}

#[test]
fn stats_of_an_empty_list() {
    assert_eq!(todo_stats(&Vec::new()), (0, 0, 0));
}

#[test]
fn stats_count_completed_and_active_items() {
    let items = vec![item(1, true), item(2, false), item(3, true), item(4, false), item(5, false)];
    assert_eq!(todo_stats(&items), (5, 3, 2));
    let all_done = vec![item(1, true), item(2, true)];
    assert_eq!(todo_stats(&all_done), (2, 0, 2));
    let none_done = vec![item(1, false)];
    assert_eq!(todo_stats(&none_done), (1, 1, 0));
}

#[test]
fn summary_counts_what_is_left() {
    assert_eq!(todo_summary(3), "还有 3 个任务待完成！");
    assert_eq!(todo_summary(12), "还有 12 个任务待完成！");
    assert_eq!(todo_summary(0), "🎉 所有任务都完成了！");
}

#[test]
fn button_is_medium_by_default() {
    assert_eq!(ButtonSize::default(), ButtonSize::Medium);
}

#[test]
fn button_style_joins_base_variant_and_size() {
    assert_eq!(
        button_style(&ButtonVariant::Primary, &ButtonSize::Medium),
        "border: none; border-radius: 6px; font-weight: 500; cursor: pointer; display: inline-flex; align-items: center; gap: 8px; transition: all 0.2s;background: #007bff; color: white;padding: 10px 20px; font-size: 14px;"
    );
    assert_eq!(
        button_style(&ButtonVariant::Warning, &ButtonSize::Small),
        "border: none; border-radius: 6px; font-weight: 500; cursor: pointer; display: inline-flex; align-items: center; gap: 8px; transition: all 0.2s;background: #ffc107; color: #212529;padding: 6px 12px; font-size: 12px;"
    );
}

#[test]
fn button_style_of_each_variant_and_size() {
    let base = "border: none; border-radius: 6px; font-weight: 500; cursor: pointer; display: inline-flex; align-items: center; gap: 8px; transition: all 0.2s;";
    let variants = [
        (ButtonVariant::Primary, "background: #007bff; color: white;"),
        (ButtonVariant::Secondary, "background: #6c757d; color: white;"),
        (ButtonVariant::Success, "background: #28a745; color: white;"),
        (ButtonVariant::Warning, "background: #ffc107; color: #212529;"),
        (ButtonVariant::Danger, "background: #dc3545; color: white;"),
    ];
    let sizes = [
        (ButtonSize::Small, "padding: 6px 12px; font-size: 12px;"),
        (ButtonSize::Medium, "padding: 10px 20px; font-size: 14px;"),
        (ButtonSize::Large, "padding: 14px 28px; font-size: 16px;"),
    ];
    for (variant, variant_style) in &variants {
        for (size, size_style) in &sizes {
            assert_eq!(
                button_style(variant, size),
                format!("{}{}{}", base, variant_style, size_style)
            );
        }
    }
}

#[test]
fn card_is_light_and_shows_everything_by_default() {
    let config = CardConfig::default();
    assert_eq!(config.theme, "light");
    assert!(config.show_email);
    assert!(config.show_role);
}

#[test]
fn card_class_names_the_theme() {
    assert_eq!(card_class("light"), "user-card theme-light");
    assert_eq!(card_class("dark"), "user-card theme-dark");
    assert_eq!(card_class(""), "user-card theme-");
}

#[test]
fn initial_is_the_first_character_in_uppercase() {
    assert_eq!(name_initial("alice"), "A");
    assert_eq!(name_initial("Bob"), "B");
    assert_eq!(name_initial("张三"), "张");
    assert_eq!(name_initial("émile"), "É");
    assert_eq!(name_initial("7up"), "7");
}

#[test]
fn initial_may_take_more_than_one_character() {
    assert_eq!(name_initial("ßeta"), "SS");
}

#[test]
fn initial_of_an_empty_name_is_a_question_mark() {
    assert_eq!(name_initial(""), "?");
}
