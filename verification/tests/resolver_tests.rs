use jj_git_util::resolver::resolve_password;
use jj_git_util::resolver::resolve_username_password;
use jj_git_util::resolver::terminal_get_pw;
use jj_git_util::resolver::terminal_get_username;
use jj_git_util::ui::Ui;

fn scripted(responses: &[&str]) -> Ui {
    Ui::with_responses(responses.iter().map(|s| s.to_string()).collect())
}

#[test]
fn helper_secret_wins_without_prompting() {
    let mut ui = scripted(&["unused"]);
    let output = b"OK\nD s3cret\nOK\n".to_vec();
    let r = resolve_password(&mut ui, "https://example.com", Some(&output));
    assert_eq!(r, Some("s3cret".to_string()));
    assert!(ui.prompt_log.is_empty());
    assert_eq!(ui.responses, vec!["unused".to_string()]);
}

#[test]
fn malformed_helper_escape_falls_back_to_prompt_for_same_url() {
    let mut ui = scripted(&["hunter2"]);
    // the data line carries a truncated escape, so the helper yields nothing
    let output = b"D ab%4".to_vec();
    let r = resolve_password(&mut ui, "https://example.com", Some(&output));
    assert_eq!(r, Some("hunter2".to_string()));
    assert_eq!(ui.prompt_log, vec!["Passphrase for https://example.com: ".to_string()]);
}

#[test]
fn absent_helper_falls_back_to_prompt() {
    let mut ui = scripted(&["pw"]);
    let r = resolve_password(&mut ui, "u", None);
    assert_eq!(r, Some("pw".to_string()));
    assert_eq!(ui.prompt_log, vec!["Passphrase for u: ".to_string()]);
}

#[test]
fn exhausted_prompt_means_no_secret() {
    let mut ui = scripted(&[]);
    let r = resolve_password(&mut ui, "u", None);
    assert_eq!(r, None);
}

#[test]
fn username_password_needs_both_answers() {
    let mut ui = scripted(&["alice", "s3cret"]);
    let r = resolve_username_password(&mut ui, "https://host");
    assert_eq!(r, Some(("alice".to_string(), "s3cret".to_string())));
    assert_eq!(
        ui.prompt_log,
        vec![
            "Username for https://host".to_string(),
            "Passphrase for https://host: ".to_string(),
        ]
    );
    assert!(ui.responses.is_empty());
}

#[test]
fn missing_password_yields_nothing() {
    let mut ui = scripted(&["alice"]);
    let r = resolve_username_password(&mut ui, "h");
    assert_eq!(r, None);
    assert_eq!(ui.prompt_log.len(), 2);
}

#[test]
fn missing_username_stops_before_password_prompt() {
    let mut ui = scripted(&[]);
    let r = resolve_username_password(&mut ui, "h");
    assert_eq!(r, None);
    assert_eq!(ui.prompt_log, vec!["Username for h".to_string()]);
}

#[test]
fn terminal_handle_starts_clean() {
    let ui = Ui::terminal();
    assert!(!ui.scripted);
    assert!(ui.prompt_log.is_empty());
    assert!(ui.responses.is_empty());
}

#[test]
fn prompt_messages_name_the_url() {
    let mut ui = scripted(&["a", "b"]);
    assert_eq!(terminal_get_username(&mut ui, "git@host:repo"), Some("a".to_string()));
    assert_eq!(terminal_get_pw(&mut ui, "git@host:repo"), Some("b".to_string()));
    assert_eq!(
        ui.prompt_log,
        vec![
            "Username for git@host:repo".to_string(),
            "Passphrase for git@host:repo: ".to_string(),
        ]
    );
}
