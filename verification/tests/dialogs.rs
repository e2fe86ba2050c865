use vite_app_core::dialogs::{
    create_alert_options, create_confirm_options, create_snackbar_options, DialogOption,
    OptionValue,
};

fn text(name: &str, value: &str) -> DialogOption {
    DialogOption { name: name.to_string(), value: OptionValue::Text(value.to_string()) }
}

fn number(name: &str, value: u32) -> DialogOption {
    DialogOption { name: name.to_string(), value: OptionValue::Number(value) }
}

#[test]
fn alert_has_headline_and_description() {
    assert_eq!(
        create_alert_options("提示", "Saved."),
        vec![text("headline", "提示"), text("description", "Saved.")]
    );
}

#[test]
fn confirm_without_button_texts() {
    assert_eq!(
        create_confirm_options("Sure?", "This cannot be undone.", None, None),
        vec![text("headline", "Sure?"), text("description", "This cannot be undone.")]
    );
}

#[test]
fn confirm_with_both_button_texts() {
    assert_eq!(
        create_confirm_options("Sure?", "Really?", Some("确定"), Some("取消")),
        vec![
            text("headline", "Sure?"),
            text("description", "Really?"),
            text("confirmText", "确定"),
            text("cancelText", "取消"),
        ]
    );
}

#[test]
fn confirm_with_one_button_text() {
    assert_eq!(
        create_confirm_options("a", "b", Some("yes"), None),
        vec![text("headline", "a"), text("description", "b"), text("confirmText", "yes")]
    );
    assert_eq!(
        create_confirm_options("a", "b", None, Some("no")),
        vec![text("headline", "a"), text("description", "b"), text("cancelText", "no")]
    );
}

#[test]
fn snackbar_with_message_alone() {
    assert_eq!(create_snackbar_options("Done", None, None), vec![text("message", "Done")]);
}

#[test]
fn snackbar_with_action_and_timeout() {
    assert_eq!(
        create_snackbar_options("Done", Some("知道了"), Some(3000)),
        vec![text("message", "Done"), text("action", "知道了"), number("timeout", 3000)]
    );
}

#[test]
fn snackbar_with_one_of_action_and_timeout() {
    assert_eq!(
        create_snackbar_options("Done", Some("Undo"), None),
        vec![text("message", "Done"), text("action", "Undo")]
    );
    assert_eq!(
        create_snackbar_options("Done", None, Some(0)),
        vec![text("message", "Done"), number("timeout", 0)]
    );
}
