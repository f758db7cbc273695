//! The browser client: its pages, its forms, the state of its login and
//! registration pages, and how it keeps the session token as the customer
//! logs in and out.
use vstd::prelude::*;
use crate::text::{owned, str_equal};

verus! {

/// The pages of the client.
#[derive(Clone, Copy, Debug, PartialEq, Eq, Structural)]
pub enum Page {
    Home,
    Login,
    Register,
}

impl Page {
    /// The route of the page.
    pub open spec fn route(self) -> Seq<char> {
        match self {
            Page::Home => "/"@,
            Page::Login => "/login"@,
            Page::Register => "/register"@,
        }
    }

    pub fn path(&self) -> (r: &'static str)
        ensures
            r@ == self.route(),
    {
        match self {
            Page::Home => "/",
            Page::Login => "/login",
            Page::Register => "/register",
        }
    }
}

/// Distinct pages live at distinct routes.
pub proof fn lemma_routes_are_distinct(a: Page, b: Page)
    requires
        a != b,
    ensures
        a.route() != b.route(),
{
    reveal_strlit("/");
    reveal_strlit("/login");
    reveal_strlit("/register");
    assert("/"@.len() != "/login"@.len());
    assert("/"@.len() != "/register"@.len());
    assert("/login"@.len() != "/register"@.len());
}

/// The smallest card number the registration form accepts.
pub const MIN_CARD_NUMBER: i32 = 100_000_000i32;

/// Whether the login button is disabled: while a request is under way or
/// before a password is typed.
pub fn login_button_disabled(disabled: bool, password: &str) -> (r: bool)
    ensures
        r == (disabled || password@.len() == 0),
{
    disabled || password.is_empty()
}

/// Whether the registration button is disabled: while a request is under
/// way, before a password is typed, or while the card number has fewer than
/// nine digits.
pub fn register_button_disabled(disabled: bool, password: &str, card_number: i32) -> (r: bool)
    ensures
        r == (disabled || password@.len() == 0 || card_number < MIN_CARD_NUMBER),
{
    disabled || password.is_empty() || card_number < MIN_CARD_NUMBER
}

/// An error the client's API answers with.
#[derive(Clone, Debug)]
pub struct ApiError {
    pub message: String,
}

/// The error a login answer carries: a 401 status means the credentials
/// were refused.
pub fn login_refusal(status: u16) -> (r: Option<ApiError>)
    ensures
        status == 401 ==> (r matches Some(e) && e.message@ == "username or password is incorrect"@),
        status != 401 ==> r is None,
{
    if status == 401 {
        Some(ApiError { message: owned("username or password is incorrect") })
    } else {
        None
    }
}


/// How an API call of the client ends when it fails: the request could not
/// be made (its description) or the API answered with an error.
#[derive(Clone, Debug)]
pub enum Error {
    Fetch(String),
    Api(ApiError),
}

/// What `format!("{:?}", s)` writes for a text: std's debug form of a string.
pub uninterp spec fn debug_text(s: Seq<char>) -> Seq<char>;

/// Writes a text in std's debug form, `format!("{:?}", s)`; the quoting and
/// escaping are named, not described.
#[verifier::external_body]
fn debug_quoted(s: &str) -> (r: String)
    ensures
        r@ == debug_text(s@),
{
    format!("{:?}", s)
}

/// The text shown for a failed call: the debug form of a request failure,
/// or the message the API answered.
pub open spec fn error_text(err: Error) -> Seq<char> {
    match err {
        Error::Fetch(m) => debug_text(m@),
        Error::Api(e) => e.message@,
    }
}

/// The message the login and registration pages show for a failed call: the
/// debug form of a request failure, or the message the API answered.
pub fn error_message(err: Error) -> (r: String)
    ensures
        r@ == error_text(err),
{
    match err {
        Error::Fetch(js_err) => debug_quoted(js_err.as_str()),
        Error::Api(e) => e.message,
    }
}

/// What the client knows of the session: the token of the authorized API,
/// if logged in, and the name of the customer once fetched.
#[derive(Clone, Debug)]
pub struct ClientState {
    pub token: Option<String>,
    pub user_name: Option<String>,
}

/// What happens to the client.
#[derive(Clone, Debug)]
pub enum ClientEvent {
    /// The client starts, with the token found in local storage, if any.
    Started(Option<String>),
    /// A login or registration succeeded with this token.
    LoggedIn(String),
    /// The customer asked to log out.
    LogoutRequested,
    /// The logout call finished, successfully or not.
    LogoutFinished(bool),
    /// The customer's name arrived, or fetching it failed.
    UserInfoArrived(Option<String>),
}

/// What the client does in answer.
#[derive(Clone, Debug)]
pub enum ClientAction {
    /// Store the token in local storage.
    SaveToken(String),
    /// Remove the token from local storage.
    DeleteToken,
    /// Fetch the customer's information with the authorized API.
    FetchUserInfo,
    /// Go to the home page.
    NavigateHome,
    /// Call the API's logout, which removes the token from local storage
    /// before it sends the request, whether or not the request then succeeds.
    CallLogout,
}

/// The state and actions after an event.
pub open spec fn client_step(s: ClientState, e: ClientEvent) -> (ClientState, Seq<ClientAction>) {
    match e {
        ClientEvent::Started(Some(t)) => (
            ClientState { token: Some(t), ..s },
            seq![ClientAction::FetchUserInfo, ClientAction::SaveToken(t)],
        ),
        ClientEvent::Started(None) => (s, if s.token is Some {
            seq![ClientAction::SaveToken(s.token->0)]
        } else {
            seq![ClientAction::DeleteToken]
        }),
        ClientEvent::LoggedIn(t) => (
            ClientState { token: Some(t), ..s },
            seq![ClientAction::SaveToken(t), ClientAction::NavigateHome, ClientAction::FetchUserInfo],
        ),
        ClientEvent::LogoutRequested => (s, if s.token is Some {
            seq![ClientAction::CallLogout]
        } else {
            Seq::empty()
        }),
        ClientEvent::LogoutFinished(ok) => if ok {
            (ClientState { token: None, user_name: None }, seq![ClientAction::DeleteToken])
        } else {
            (s, Seq::empty())
        },
        ClientEvent::UserInfoArrived(Some(name)) => (
            ClientState { user_name: Some(name), ..s },
            Seq::empty(),
        ),
        ClientEvent::UserInfoArrived(None) => (s, Seq::empty()),
    }
}

impl ClientState {
    /// The client before it starts: not logged in, no name.
    pub fn new() -> (r: ClientState)
        ensures
            r.token is None,
            r.user_name is None,
    {
        ClientState { token: None, user_name: None }
    }

    /// Whether the client is logged in.
    pub fn logged_in(&self) -> (r: bool)
        ensures
            r == self.token is Some,
    {
        self.token.is_some()
    }

    /// Moves the client on by an event. Whenever the token is set, it is
    /// stored; when it is cleared or missing at the start, the stored one is
    /// removed; a fetch of the customer's name follows each new token.
    pub fn step(self, e: ClientEvent) -> (r: (ClientState, Vec<ClientAction>))
        ensures
            r.0 == client_step(self, e).0,
            r.1@ == client_step(self, e).1,
    {
        match e {
            ClientEvent::Started(Some(t)) => {
                let mut a: Vec<ClientAction> = Vec::new();
                a.push(ClientAction::FetchUserInfo);
                a.push(ClientAction::SaveToken(t.clone()));
                (ClientState { token: Some(t), user_name: self.user_name }, a)
            },
            ClientEvent::Started(None) => {
                let mut a: Vec<ClientAction> = Vec::new();
                match &self.token {
                    Some(t) => a.push(ClientAction::SaveToken(t.clone())),
                    None => a.push(ClientAction::DeleteToken),
                }
                (self, a)
            },
            ClientEvent::LoggedIn(t) => {
                let mut a: Vec<ClientAction> = Vec::new();
                a.push(ClientAction::SaveToken(t.clone()));
                a.push(ClientAction::NavigateHome);
                a.push(ClientAction::FetchUserInfo);
                (ClientState { token: Some(t), user_name: self.user_name }, a)
            },
            ClientEvent::LogoutRequested => {
                let mut a: Vec<ClientAction> = Vec::new();
                if self.token.is_some() {
                    a.push(ClientAction::CallLogout);
                }
                (self, a)
            },
            ClientEvent::LogoutFinished(ok) => {
                let mut a: Vec<ClientAction> = Vec::new();
                if ok {
                    a.push(ClientAction::DeleteToken);
                    (ClientState { token: None, user_name: None }, a)
                } else {
                    (self, a)
                }
            },
            ClientEvent::UserInfoArrived(Some(name)) => {
                let a: Vec<ClientAction> = Vec::new();
                (ClientState { token: self.token, user_name: Some(name) }, a)
            },
            ClientEvent::UserInfoArrived(None) => {
                let a: Vec<ClientAction> = Vec::new();
                (self, a)
            },
        }
    }
}

/// Every change of the token reaches local storage: a token the client
/// starts to hold is saved, and a token it drops is removed. A failed logout
/// changes no token, so nothing is saved again: the logout call has already
/// removed the stored token, and the client keeps one that storage no longer
/// has.
pub proof fn lemma_storage_follows_authorization(s: ClientState, e: ClientEvent)
    ensures
        ({
            let (n, a) = client_step(s, e);
            &&& (n.token is Some && n.token != s.token) ==> a.contains(ClientAction::SaveToken(n.token->0))
            &&& (n.token is None && s.token is Some) ==> a.contains(ClientAction::DeleteToken)
        }),
{
    let (n, a) = client_step(s, e);
    match e {
        ClientEvent::Started(Some(t)) => {
            assert(a[1] == ClientAction::SaveToken(t));
        },
        ClientEvent::LoggedIn(t) => {
            assert(a[0] == ClientAction::SaveToken(t));
        },
        ClientEvent::LogoutFinished(ok) => {
            if ok {
                assert(a[0] == ClientAction::DeleteToken);
            }
        },
        _ => {},
    }
}

/// A successful logout leaves the client logged out and forgets the name.
pub proof fn lemma_logout_logs_out(s: ClientState)
    ensures
        client_step(s, ClientEvent::LogoutFinished(true)).0.token is None,
        client_step(s, ClientEvent::LogoutFinished(true)).0.user_name is None,
{
}


/// The state of the login or registration page: whether an answer is
/// awaited (the form is disabled meanwhile) and the error it shows.
#[derive(Clone, Debug)]
pub struct AuthPage {
    pub waiting: bool,
    pub error: Option<String>,
}

impl AuthPage {
    /// A page that awaits nothing and shows no error.
    pub fn new() -> (r: AuthPage)
        ensures
            !r.waiting,
            r.error is None,
    {
        AuthPage { waiting: false, error: None }
    }

    /// The form was sent: the page awaits the answer and keeps its error
    /// until the answer comes.
    pub fn submitted(self) -> (r: AuthPage)
        ensures
            r.waiting,
            r.error == self.error,
    {
        AuthPage { waiting: true, error: self.error }
    }

    /// The answer came. On success the error is cleared and the token is
    /// handed on (the client then logs in with it); on failure the page
    /// shows the call's error message and hands on nothing.
    pub fn answered(self, result: Result<String, Error>) -> (r: (AuthPage, Option<String>))
        ensures
            !r.0.waiting,
            match result {
                Ok(t) => r.0.error is None && r.1 == Some(t),
                Err(e) => r.0.error is Some && r.0.error->0@ == error_text(e) && r.1 is None,
            },
    {
        match result {
            Ok(token) => (AuthPage { waiting: false, error: None }, Some(token)),
            Err(e) => (AuthPage { waiting: false, error: Some(error_message(e)) }, None),
        }
    }
}


/// Whether a key released in a form is the Enter key.
pub open spec fn is_enter(key: Seq<char>) -> bool {
    key == "Enter"@
}

fn enter_pressed(key: &str) -> (r: bool)
    ensures
        r == is_enter(key@),
{
    str_equal(key, "Enter")
}

/// The fields of the login form: the user name, a number, and the password.
#[derive(Clone, Debug)]
pub struct LoginForm {
    pub username: i32,
    pub password: String,
}

/// What the customer does in the login form.
#[derive(Clone, Debug)]
pub enum LoginFormEvent {
    /// The user name field now holds this number.
    UsernameEdited(i32),
    /// A key was released in the password field, which then holds `value`.
    PasswordKeyUp { key: String, value: String },
    /// The password field changed to this text.
    PasswordChanged(String),
    /// The login button was clicked.
    ButtonClicked,
}

impl LoginForm {
    /// An empty form: user name 0, no password.
    pub fn new() -> (r: LoginForm)
        ensures
            r.username == 0,
            r.password@.len() == 0,
    {
        LoginForm { username: 0, password: String::new() }
    }

    /// Moves the form on by an event while requests are `disabled` or not,
    /// with the credentials it sends, if any. Enter in the password field
    /// sends them as they stand, whether or not the button is disabled; a
    /// click sends them only when the button is enabled; any other key, or a
    /// change, takes the field's text as the password.
    pub fn on_event(self, e: LoginFormEvent, disabled: bool) -> (r: (LoginForm, Option<(i32, String)>))
        ensures
            match e {
                LoginFormEvent::UsernameEdited(n) => r.0.username == n && r.0.password == self.password
                    && r.1 is None,
                LoginFormEvent::PasswordKeyUp { key, value } => if is_enter(key@) {
                    r.0.username == self.username && r.0.password == self.password
                        && r.1 == Some((self.username, self.password))
                } else {
                    r.0.username == self.username && r.0.password == value && r.1 is None
                },
                LoginFormEvent::PasswordChanged(value) => r.0.username == self.username && r.0.password
                    == value && r.1 is None,
                LoginFormEvent::ButtonClicked => r.0.username == self.username && r.0.password
                    == self.password && if disabled || self.password@.len() == 0 {
                    r.1 is None
                } else {
                    r.1 == Some((self.username, self.password))
                },
            },
    {
        match e {
            LoginFormEvent::UsernameEdited(n) => (LoginForm { username: n, password: self.password }, None),
            LoginFormEvent::PasswordKeyUp { key, value } => {
                if enter_pressed(key.as_str()) {
                    let sent = (self.username, self.password.clone());
                    (self, Some(sent))
                } else {
                    (LoginForm { username: self.username, password: value }, None)
                }
            },
            LoginFormEvent::PasswordChanged(value) => (LoginForm { username: self.username, password: value }, None),
            LoginFormEvent::ButtonClicked => {
                if login_button_disabled(disabled, self.password.as_str()) {
                    (self, None)
                } else {
                    let sent = (self.username, self.password.clone());
                    (self, Some(sent))
                }
            },
        }
    }
}

/// The fields of the registration form. Only the user name and the password
/// have inputs; the card number and the service password keep their first
/// values.
#[derive(Clone, Debug)]
pub struct RegisterForm {
    pub username: String,
    pub password: String,
    pub card_number: i32,
    pub service_password: String,
}

/// What the customer does in the registration form.
#[derive(Clone, Debug)]
pub enum RegisterFormEvent {
    /// The user name field now holds this text.
    UsernameEdited(String),
    /// A key was released in the password field, which then holds `value`.
    PasswordKeyUp { key: String, value: String },
    /// The password field changed to this text.
    PasswordChanged(String),
    /// The registration button was clicked.
    ButtonClicked,
}

impl RegisterForm {
    /// An empty form: no name or password, card number 0, no service
    /// password.
    pub fn new() -> (r: RegisterForm)
        ensures
            r.username@.len() == 0,
            r.password@.len() == 0,
            r.card_number == 0,
            r.service_password@.len() == 0,
    {
        RegisterForm {
            username: String::new(),
            password: String::new(),
            card_number: 0,
            service_password: String::new(),
        }
    }

    /// Moves the form on by an event while requests are `disabled` or not,
    /// with the fields it sends, if any: as on the login form, Enter in the
    /// password field always sends, a click only when the button is enabled.
    pub fn on_event(self, e: RegisterFormEvent, disabled: bool) -> (r: (
        RegisterForm,
        Option<(String, String, i32, String)>,
    ))
        ensures
            r.0.card_number == self.card_number,
            r.0.service_password == self.service_password,
            match e {
                RegisterFormEvent::UsernameEdited(n) => r.0.username == n && r.0.password == self.password
                    && r.1 is None,
                RegisterFormEvent::PasswordKeyUp { key, value } => if is_enter(key@) {
                    r.0.username == self.username && r.0.password == self.password && r.1 == Some(
                        (self.username, self.password, self.card_number, self.service_password),
                    )
                } else {
                    r.0.username == self.username && r.0.password == value && r.1 is None
                },
                RegisterFormEvent::PasswordChanged(value) => r.0.username == self.username
                    && r.0.password == value && r.1 is None,
                RegisterFormEvent::ButtonClicked => r.0.username == self.username && r.0.password
                    == self.password && if disabled || self.password@.len() == 0 || self.card_number
                    < MIN_CARD_NUMBER {
                    r.1 is None
                } else {
                    r.1 == Some((self.username, self.password, self.card_number, self.service_password))
                },
            },
    {
        match e {
            RegisterFormEvent::UsernameEdited(n) => (RegisterForm { username: n, ..self }, None),
            RegisterFormEvent::PasswordKeyUp { key, value } => {
                if enter_pressed(key.as_str()) {
                    let sent = (
                        self.username.clone(),
                        self.password.clone(),
                        self.card_number,
                        self.service_password.clone(),
                    );
                    (self, Some(sent))
                } else {
                    (RegisterForm { password: value, ..self }, None)
                }
            },
            RegisterFormEvent::PasswordChanged(value) => (RegisterForm { password: value, ..self }, None),
            RegisterFormEvent::ButtonClicked => {
                if register_button_disabled(disabled, self.password.as_str(), self.card_number) {
                    (self, None)
                } else {
                    let sent = (
                        self.username.clone(),
                        self.password.clone(),
                        self.card_number,
                        self.service_password.clone(),
                    );
                    (self, Some(sent))
                }
            },
        }
    }
}


/// The client's routes: the home page at "/", the login page at "/login"
/// and the registration page at "/register".
pub proof fn lemma_page_routes()
    ensures
        Page::Home.route() == "/"@,
        Page::Login.route() == "/login"@,
        Page::Register.route() == "/register"@,
{
}

} // verus!
