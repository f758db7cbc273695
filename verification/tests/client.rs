use fardtjanst::client::{
    error_message, ApiError, AuthPage, ClientAction, ClientEvent, ClientState, Error, LoginForm, LoginFormEvent,
    RegisterForm, RegisterFormEvent,
};
use fardtjanst::model::RegestringUser;

fn logged_in_state() -> ClientState {
    ClientState { token: Some("tok".to_string()), user_name: Some("Bo".to_string()) }
}

#[test]
fn fetch_error_message_is_debug_quoted() {
    let m = error_message(Error::Fetch("a\"b".to_string()));
    assert_eq!(m, "\"a\\\"b\"");
}

#[test]
fn api_error_message_is_passed_through() {
    let m = error_message(Error::Api(ApiError { message: "username or password is incorrect".to_string() }));
    assert_eq!(m, "username or password is incorrect");
}

#[test]
fn auth_page_success_clears_error_and_hands_on_token() {
    let page = AuthPage { waiting: false, error: Some("old".to_string()) }.submitted();
    assert!(page.waiting);
    assert_eq!(page.error, Some("old".to_string()));
    let (page, token) = page.answered(Ok("tok".to_string()));
    assert!(!page.waiting);
    assert_eq!(page.error, None);
    assert_eq!(token, Some("tok".to_string()));
}

#[test]
fn auth_page_failure_shows_message() {
    let page = AuthPage::new().submitted();
    let (page, token) = page.answered(Err(Error::Fetch("offline".to_string())));
    assert!(!page.waiting);
    assert_eq!(page.error, Some("\"offline\"".to_string()));
    assert_eq!(token, None);
}

#[test]
fn registration_form_fields() {
    let r = RegestringUser::from_form(-42, "pw".to_string(), 123456, "spw".to_string());
    assert_eq!(r.name, "-42");
    assert_eq!(r.password, "pw");
    assert_eq!(r.card_nummer, 123456);
    assert_eq!(r.fartjanst_password, "spw");
}

#[test]
fn start_with_stored_token() {
    let (s, a) = ClientState::new().step(ClientEvent::Started(Some("tok".to_string())));
    assert!(s.logged_in());
    assert_eq!(s.token, Some("tok".to_string()));
    assert_eq!(a.len(), 2);
    assert!(matches!(a[0], ClientAction::FetchUserInfo));
    assert!(matches!(&a[1], ClientAction::SaveToken(t) if t == "tok"));
}

#[test]
fn start_without_token_deletes_stored_one() {
    let (s, a) = ClientState::new().step(ClientEvent::Started(None));
    assert!(!s.logged_in());
    assert_eq!(a.len(), 1);
    assert!(matches!(a[0], ClientAction::DeleteToken));
}

#[test]
fn login_saves_token_navigates_and_fetches() {
    let (s, a) = ClientState::new().step(ClientEvent::LoggedIn("new".to_string()));
    assert_eq!(s.token, Some("new".to_string()));
    assert_eq!(a.len(), 3);
    assert!(matches!(&a[0], ClientAction::SaveToken(t) if t == "new"));
    assert!(matches!(a[1], ClientAction::NavigateHome));
    assert!(matches!(a[2], ClientAction::FetchUserInfo));
}

#[test]
fn logout_only_when_logged_in() {
    let (_, a) = ClientState::new().step(ClientEvent::LogoutRequested);
    assert!(a.is_empty());
    let (s, a) = logged_in_state().step(ClientEvent::LogoutRequested);
    assert!(s.logged_in());
    assert_eq!(a.len(), 1);
    assert!(matches!(a[0], ClientAction::CallLogout));
}

#[test]
fn successful_logout_forgets_everything() {
    let (s, a) = logged_in_state().step(ClientEvent::LogoutFinished(true));
    assert_eq!(s.token, None);
    assert_eq!(s.user_name, None);
    assert_eq!(a.len(), 1);
    assert!(matches!(a[0], ClientAction::DeleteToken));
}

#[test]
fn failed_logout_keeps_session() {
    let (s, a) = logged_in_state().step(ClientEvent::LogoutFinished(false));
    assert_eq!(s.token, Some("tok".to_string()));
    assert_eq!(s.user_name, Some("Bo".to_string()));
    assert!(a.is_empty());
}

#[test]
fn user_info_sets_name() {
    let (s, a) = ClientState::new().step(ClientEvent::UserInfoArrived(Some("Ann".to_string())));
    assert_eq!(s.user_name, Some("Ann".to_string()));
    assert!(a.is_empty());
    let (s, _) = s.step(ClientEvent::UserInfoArrived(None));
    assert_eq!(s.user_name, Some("Ann".to_string()));
}

fn key_up(key: &str, value: &str) -> LoginFormEvent {
    LoginFormEvent::PasswordKeyUp { key: key.to_string(), value: value.to_string() }
}

#[test]
fn login_form_typing_and_clicking() {
    let f = LoginForm::new();
    let (f, sent) = f.on_event(LoginFormEvent::ButtonClicked, false);
    assert_eq!(sent, None);
    let (f, sent) = f.on_event(LoginFormEvent::UsernameEdited(123456789), false);
    assert_eq!(sent, None);
    let (f, sent) = f.on_event(key_up("a", "a"), false);
    assert_eq!(sent, None);
    assert_eq!(f.password, "a");
    let (f, sent) = f.on_event(LoginFormEvent::PasswordChanged("abc".to_string()), false);
    assert_eq!(sent, None);
    let (f, sent) = f.clone().on_event(LoginFormEvent::ButtonClicked, true);
    assert_eq!(sent, None);
    let (_, sent) = f.on_event(LoginFormEvent::ButtonClicked, false);
    assert_eq!(sent, Some((123456789, "abc".to_string())));
}

#[test]
fn login_form_enter_sends_even_when_disabled() {
    let f = LoginForm { username: 7, password: "pw".to_string() };
    let (f, sent) = f.on_event(key_up("Enter", "ignored"), true);
    assert_eq!(sent, Some((7, "pw".to_string())));
    assert_eq!(f.password, "pw");
    let (_, sent) = LoginForm::new().on_event(key_up("Enter", ""), false);
    assert_eq!(sent, Some((0, String::new())));
}

#[test]
fn register_form_button_needs_card_number() {
    let f = RegisterForm::new();
    let (f, _) = f.on_event(RegisterFormEvent::UsernameEdited("Bo".to_string()), false);
    let (f, _) = f.on_event(RegisterFormEvent::PasswordChanged("pw".to_string()), false);
    let (f, sent) = f.on_event(RegisterFormEvent::ButtonClicked, false);
    assert_eq!(sent, None);
    assert_eq!(f.card_number, 0);
    let f = RegisterForm { card_number: 100_000_000, ..f };
    let (_, sent) = f.on_event(RegisterFormEvent::ButtonClicked, false);
    assert_eq!(sent, Some(("Bo".to_string(), "pw".to_string(), 100_000_000, String::new())));
}

#[test]
fn register_form_enter_sends_fields() {
    let f = RegisterForm::new();
    let (f, _) = f.on_event(RegisterFormEvent::UsernameEdited("Ann".to_string()), false);
    let (f, sent) = f.on_event(
        RegisterFormEvent::PasswordKeyUp { key: "x".to_string(), value: "x".to_string() },
        false,
    );
    assert_eq!(sent, None);
    let (_, sent) = f.on_event(
        RegisterFormEvent::PasswordKeyUp { key: "Enter".to_string(), value: "x".to_string() },
        true,
    );
    assert_eq!(sent, Some(("Ann".to_string(), "x".to_string(), 0, String::new())));
}
