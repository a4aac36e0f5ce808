use vstd::prelude::*;
use crate::clock::now_millis;
use crate::ids::fresh_id;
use crate::models::metrics::ProcessMetrics;
use crate::text::{joined, owned, same_text, to_lowercase, lowercase};

verus! {
/// The operating system family of a server.
#[derive(Debug, Clone, Copy, PartialEq, Eq, Structural)]
pub enum ServerType {
    Linux,
    MacOS,
    Windows,
}

impl Default for ServerType {
    fn default() -> (r: Self)
        ensures
            r == ServerType::Linux,
    {
        ServerType::Linux
    }
}

impl ServerType {
    /// The lowercase name of the variant.
    pub open spec fn name(self) -> Seq<char> {
        match self {
            ServerType::Linux => "linux"@,
            ServerType::MacOS => "macos"@,
            ServerType::Windows => "windows"@,
        }
    }

    /// The variant that has the lowercase name `text`, if there is one.
    pub open spec fn named(text: Seq<char>) -> Option<ServerType> {
        if text == "linux"@ {
            Some(ServerType::Linux)
        } else if text == "macos"@ {
            Some(ServerType::MacOS)
        } else if text == "windows"@ {
            Some(ServerType::Windows)
        } else {
            None
        }
    }

    /// Every variant is found again under its own name.
    pub proof fn lemma_name_round_trip(v: ServerType)
        ensures
            ServerType::named(v.name()) == Some(v),
    {
        reveal_strlit("linux");
        reveal_strlit("macos");
        reveal_strlit("windows");
        assert("linux"@.len() == 5);
        assert("macos"@.len() == 5);
        assert("windows"@.len() == 7);
        assert("macos"@[0] == 'm');
        assert("linux"@[0] == 'l');
    }

    pub fn as_ref(&self) -> (r: &'static str)
        ensures
            r@ == self.name(),
    {
        match self {
            ServerType::Linux => "linux",
            ServerType::MacOS => "macos",
            ServerType::Windows => "windows",
        }
    }

    /// The lowercase name as an owned string.
    pub fn to_string(&self) -> (r: String)
        ensures
            r@ == self.name(),
    {
        owned(self.as_ref())
    }

    /// Looks a variant up by its exact lowercase name.
    pub fn from_name(text: &str) -> (r: Option<ServerType>)
        ensures
            r == ServerType::named(text@),
    {
        if same_text(text, "linux") {
            Some(ServerType::Linux)
        } else if same_text(text, "macos") {
            Some(ServerType::MacOS)
        } else if same_text(text, "windows") {
            Some(ServerType::Windows)
        } else {
            None
        }
    }

    /// Reads a variant from its name in any letter case. Any other text is
    /// refused with a message that quotes it.
    pub fn from_str(s: &str) -> (r: Result<ServerType, String>)
        ensures
            match ServerType::named(lowercase(s@)) {
                Some(v) => r == Ok::<ServerType, String>(v),
                None => r is Err && r->Err_0@ == "Invalid ServerType value: "@ + s@,
            },
    {
        let lowered = to_lowercase(s);
        match ServerType::from_name(lowered.as_str()) {
            Some(v) => Ok(v),
            None => Err(joined("Invalid ServerType value: ", s)),
        }
    }
}

impl std::str::FromStr for ServerType {
    type Err = String;

    /// Reads a variant as the inherent `from_str` does.
    fn from_str(s: &str) -> (r: Result<Self, String>)
        ensures
            match ServerType::named(lowercase(s@)) {
                Some(v) => r == Ok::<ServerType, String>(v),
                None => r is Err && r->Err_0@ == "Invalid ServerType value: "@ + s@,
            },
    {
        ServerType::from_str(s)
    }
}

/// How a server is hosted.
#[derive(Debug, Clone, Copy, PartialEq, Eq, Structural)]
pub enum ServerCategory {
    Physical,
    Virtual,
    Container,
}

impl Default for ServerCategory {
    fn default() -> (r: Self)
        ensures
            r == ServerCategory::Physical,
    {
        ServerCategory::Physical
    }
}

impl ServerCategory {
    /// The lowercase name of the variant.
    pub open spec fn name(self) -> Seq<char> {
        match self {
            ServerCategory::Physical => "physical"@,
            ServerCategory::Virtual => "virtual"@,
            ServerCategory::Container => "container"@,
        }
    }

    /// The variant that has the lowercase name `text`, if there is one.
    pub open spec fn named(text: Seq<char>) -> Option<ServerCategory> {
        if text == "physical"@ {
            Some(ServerCategory::Physical)
        } else if text == "virtual"@ {
            Some(ServerCategory::Virtual)
        } else if text == "container"@ {
            Some(ServerCategory::Container)
        } else {
            None
        }
    }

    /// Every variant is found again under its own name.
    pub proof fn lemma_name_round_trip(v: ServerCategory)
        ensures
            ServerCategory::named(v.name()) == Some(v),
    {
        reveal_strlit("physical");
        reveal_strlit("virtual");
        reveal_strlit("container");
        assert("physical"@.len() == 8);
        assert("virtual"@.len() == 7);
        assert("container"@.len() == 9);
    }

    pub fn as_ref(&self) -> (r: &'static str)
        ensures
            r@ == self.name(),
    {
        match self {
            ServerCategory::Physical => "physical",
            ServerCategory::Virtual => "virtual",
            ServerCategory::Container => "container",
        }
    }

    /// The lowercase name as an owned string.
    pub fn to_string(&self) -> (r: String)
        ensures
            r@ == self.name(),
    {
        owned(self.as_ref())
    }

    /// Looks a variant up by its exact lowercase name.
    pub fn from_name(text: &str) -> (r: Option<ServerCategory>)
        ensures
            r == ServerCategory::named(text@),
    {
        if same_text(text, "physical") {
            Some(ServerCategory::Physical)
        } else if same_text(text, "virtual") {
            Some(ServerCategory::Virtual)
        } else if same_text(text, "container") {
            Some(ServerCategory::Container)
        } else {
            None
        }
    }

    /// Reads a variant from its name in any letter case. Any other text is
    /// refused with a message that quotes it.
    pub fn from_str(s: &str) -> (r: Result<ServerCategory, String>)
        ensures
            match ServerCategory::named(lowercase(s@)) {
                Some(v) => r == Ok::<ServerCategory, String>(v),
                None => r is Err && r->Err_0@ == "Invalid ServerCategory value: "@ + s@,
            },
    {
        let lowered = to_lowercase(s);
        match ServerCategory::from_name(lowered.as_str()) {
            Some(v) => Ok(v),
            None => Err(joined("Invalid ServerCategory value: ", s)),
        }
    }
}

impl std::str::FromStr for ServerCategory {
    type Err = String;

    /// Reads a variant as the inherent `from_str` does.
    fn from_str(s: &str) -> (r: Result<Self, String>)
        ensures
            match ServerCategory::named(lowercase(s@)) {
                Some(v) => r == Ok::<ServerCategory, String>(v),
                None => r is Err && r->Err_0@ == "Invalid ServerCategory value: "@ + s@,
            },
    {
        ServerCategory::from_str(s)
    }
}

/// How grave an alert is.
#[derive(Debug, Clone, Copy, PartialEq, Eq, Structural)]
pub enum AlertSeverity {
    Info,
    Warning,
    Critical,
}

impl AlertSeverity {
    /// The lowercase name of the variant.
    pub open spec fn name(self) -> Seq<char> {
        match self {
            AlertSeverity::Info => "info"@,
            AlertSeverity::Warning => "warning"@,
            AlertSeverity::Critical => "critical"@,
        }
    }

    /// The variant that has the lowercase name `text`, if there is one.
    pub open spec fn named(text: Seq<char>) -> Option<AlertSeverity> {
        if text == "info"@ {
            Some(AlertSeverity::Info)
        } else if text == "warning"@ {
            Some(AlertSeverity::Warning)
        } else if text == "critical"@ {
            Some(AlertSeverity::Critical)
        } else {
            None
        }
    }

    /// Every variant is found again under its own name.
    pub proof fn lemma_name_round_trip(v: AlertSeverity)
        ensures
            AlertSeverity::named(v.name()) == Some(v),
    {
        reveal_strlit("info");
        reveal_strlit("warning");
        reveal_strlit("critical");
        assert("info"@.len() == 4);
        assert("warning"@.len() == 7);
        assert("critical"@.len() == 8);
    }

    pub fn as_ref(&self) -> (r: &'static str)
        ensures
            r@ == self.name(),
    {
        match self {
            AlertSeverity::Info => "info",
            AlertSeverity::Warning => "warning",
            AlertSeverity::Critical => "critical",
        }
    }

    /// The lowercase name as an owned string.
    pub fn to_string(&self) -> (r: String)
        ensures
            r@ == self.name(),
    {
        owned(self.as_ref())
    }

    /// Looks a variant up by its exact lowercase name.
    pub fn from_name(text: &str) -> (r: Option<AlertSeverity>)
        ensures
            r == AlertSeverity::named(text@),
    {
        if same_text(text, "info") {
            Some(AlertSeverity::Info)
        } else if same_text(text, "warning") {
            Some(AlertSeverity::Warning)
        } else if same_text(text, "critical") {
            Some(AlertSeverity::Critical)
        } else {
            None
        }
    }

    /// Reads a variant from its name in any letter case. Any other text is
    /// refused with a message that quotes it.
    pub fn from_str(s: &str) -> (r: Result<AlertSeverity, String>)
        ensures
            match AlertSeverity::named(lowercase(s@)) {
                Some(v) => r == Ok::<AlertSeverity, String>(v),
                None => r is Err && r->Err_0@ == "Invalid AlertSeverity value: "@ + s@,
            },
    {
        let lowered = to_lowercase(s);
        match AlertSeverity::from_name(lowered.as_str()) {
            Some(v) => Ok(v),
            None => Err(joined("Invalid AlertSeverity value: ", s)),
        }
    }
}

impl std::str::FromStr for AlertSeverity {
    type Err = String;

    /// Reads a variant as the inherent `from_str` does.
    fn from_str(s: &str) -> (r: Result<Self, String>)
        ensures
            match AlertSeverity::named(lowercase(s@)) {
                Some(v) => r == Ok::<AlertSeverity, String>(v),
                None => r is Err && r->Err_0@ == "Invalid AlertSeverity value: "@ + s@,
            },
    {
        AlertSeverity::from_str(s)
    }
}

/// What a user may do.
#[derive(Debug, Clone, Copy, PartialEq, Eq, Structural)]
pub enum UserRole {
    Admin,
    User,
    Viewer,
}

impl UserRole {
    /// The lowercase name of the variant.
    pub open spec fn name(self) -> Seq<char> {
        match self {
            UserRole::Admin => "admin"@,
            UserRole::User => "user"@,
            UserRole::Viewer => "viewer"@,
        }
    }

    /// The variant that has the lowercase name `text`, if there is one.
    pub open spec fn named(text: Seq<char>) -> Option<UserRole> {
        if text == "admin"@ {
            Some(UserRole::Admin)
        } else if text == "user"@ {
            Some(UserRole::User)
        } else if text == "viewer"@ {
            Some(UserRole::Viewer)
        } else {
            None
        }
    }

    /// Every variant is found again under its own name.
    pub proof fn lemma_name_round_trip(v: UserRole)
        ensures
            UserRole::named(v.name()) == Some(v),
    {
        reveal_strlit("admin");
        reveal_strlit("user");
        reveal_strlit("viewer");
        assert("admin"@.len() == 5);
        assert("user"@.len() == 4);
        assert("viewer"@.len() == 6);
    }

    pub fn as_ref(&self) -> (r: &'static str)
        ensures
            r@ == self.name(),
    {
        match self {
            UserRole::Admin => "admin",
            UserRole::User => "user",
            UserRole::Viewer => "viewer",
        }
    }

    /// The lowercase name as an owned string.
    pub fn to_string(&self) -> (r: String)
        ensures
            r@ == self.name(),
    {
        owned(self.as_ref())
    }

    /// Looks a variant up by its exact lowercase name.
    pub fn from_name(text: &str) -> (r: Option<UserRole>)
        ensures
            r == UserRole::named(text@),
    {
        if same_text(text, "admin") {
            Some(UserRole::Admin)
        } else if same_text(text, "user") {
            Some(UserRole::User)
        } else if same_text(text, "viewer") {
            Some(UserRole::Viewer)
        } else {
            None
        }
    }

    /// Reads a variant from its name in any letter case. Any other text is
    /// refused with a message that quotes it.
    pub fn from_str(s: &str) -> (r: Result<UserRole, String>)
        ensures
            match UserRole::named(lowercase(s@)) {
                Some(v) => r == Ok::<UserRole, String>(v),
                None => r is Err && r->Err_0@ == "Invalid UserRole value: "@ + s@,
            },
    {
        let lowered = to_lowercase(s);
        match UserRole::from_name(lowered.as_str()) {
            Some(v) => Ok(v),
            None => Err(joined("Invalid UserRole value: ", s)),
        }
    }
}

impl std::str::FromStr for UserRole {
    type Err = String;

    /// Reads a variant as the inherent `from_str` does.
    fn from_str(s: &str) -> (r: Result<Self, String>)
        ensures
            match UserRole::named(lowercase(s@)) {
                Some(v) => r == Ok::<UserRole, String>(v),
                None => r is Err && r->Err_0@ == "Invalid UserRole value: "@ + s@,
            },
    {
        UserRole::from_str(s)
    }
}

/// Who vouches for a user's identity.
#[derive(Debug, Clone, Copy, PartialEq, Eq, Structural)]
pub enum AuthProvider {
    Email,
    Google,
    Apple,
    Kakao,
    Facebook,
}

impl AuthProvider {
    /// The lowercase name of the variant.
    pub open spec fn name(self) -> Seq<char> {
        match self {
            AuthProvider::Email => "email"@,
            AuthProvider::Google => "google"@,
            AuthProvider::Apple => "apple"@,
            AuthProvider::Kakao => "kakao"@,
            AuthProvider::Facebook => "facebook"@,
        }
    }

    /// The variant that has the lowercase name `text`, if there is one.
    pub open spec fn named(text: Seq<char>) -> Option<AuthProvider> {
        if text == "email"@ {
            Some(AuthProvider::Email)
        } else if text == "google"@ {
            Some(AuthProvider::Google)
        } else if text == "apple"@ {
            Some(AuthProvider::Apple)
        } else if text == "kakao"@ {
            Some(AuthProvider::Kakao)
        } else if text == "facebook"@ {
            Some(AuthProvider::Facebook)
        } else {
            None
        }
    }

    /// Every variant is found again under its own name.
    pub proof fn lemma_name_round_trip(v: AuthProvider)
        ensures
            AuthProvider::named(v.name()) == Some(v),
    {
        reveal_strlit("email");
        reveal_strlit("google");
        reveal_strlit("apple");
        reveal_strlit("kakao");
        reveal_strlit("facebook");
        assert("email"@.len() == 5);
        assert("google"@.len() == 6);
        assert("apple"@.len() == 5);
        assert("kakao"@.len() == 5);
        assert("facebook"@.len() == 8);
        assert("apple"@[0] == 'a');
        assert("email"@[0] == 'e');
        assert("kakao"@[0] == 'k');
    }

    pub fn as_ref(&self) -> (r: &'static str)
        ensures
            r@ == self.name(),
    {
        match self {
            AuthProvider::Email => "email",
            AuthProvider::Google => "google",
            AuthProvider::Apple => "apple",
            AuthProvider::Kakao => "kakao",
            AuthProvider::Facebook => "facebook",
        }
    }

    /// The lowercase name as an owned string.
    pub fn to_string(&self) -> (r: String)
        ensures
            r@ == self.name(),
    {
        owned(self.as_ref())
    }

    /// Looks a variant up by its exact lowercase name.
    pub fn from_name(text: &str) -> (r: Option<AuthProvider>)
        ensures
            r == AuthProvider::named(text@),
    {
        if same_text(text, "email") {
            Some(AuthProvider::Email)
        } else if same_text(text, "google") {
            Some(AuthProvider::Google)
        } else if same_text(text, "apple") {
            Some(AuthProvider::Apple)
        } else if same_text(text, "kakao") {
            Some(AuthProvider::Kakao)
        } else if same_text(text, "facebook") {
            Some(AuthProvider::Facebook)
        } else {
            None
        }
    }

    /// Reads a variant from its name in any letter case. Any other text is
    /// refused with a message that quotes it.
    pub fn from_str(s: &str) -> (r: Result<AuthProvider, String>)
        ensures
            match AuthProvider::named(lowercase(s@)) {
                Some(v) => r == Ok::<AuthProvider, String>(v),
                None => r is Err && r->Err_0@ == "Invalid AuthProvider value: "@ + s@,
            },
    {
        let lowered = to_lowercase(s);
        match AuthProvider::from_name(lowered.as_str()) {
            Some(v) => Ok(v),
            None => Err(joined("Invalid AuthProvider value: ", s)),
        }
    }
}

impl std::str::FromStr for AuthProvider {
    type Err = String;

    /// Reads a variant as the inherent `from_str` does.
    fn from_str(s: &str) -> (r: Result<Self, String>)
        ensures
            match AuthProvider::named(lowercase(s@)) {
                Some(v) => r == Ok::<AuthProvider, String>(v),
                None => r is Err && r->Err_0@ == "Invalid AuthProvider value: "@ + s@,
            },
    {
        AuthProvider::from_str(s)
    }
}

/// A monitored host as the store knows it. Instants are in milliseconds since
/// the Unix epoch; `metadata` holds JSON text.
#[derive(Debug)]
pub struct Server {
    pub id: String,
    pub name: String,
    pub hostname: String,
    pub ip_address: Option<String>,
    pub port: i32,
    pub username: String,
    pub encrypted_password: String,
    pub location: Option<String>,
    pub description: Option<String>,
    pub server_type: ServerType,
    pub category: ServerCategory,
    pub is_online: bool,
    pub last_seen_at: Option<i64>,
    pub metadata: Option<String>,
    pub created_by: Option<String>,
    pub created_at: i64,
    pub updated_at: i64,
}

impl Default for Server {
    /// An offline Linux machine with a fresh random id, an unknown location,
    /// empty metadata and everything else blank, created now.
    fn default() -> (r: Self)
        ensures
            r.name@.len() == 0,
            r.hostname@.len() == 0,
            r.ip_address is None,
            r.port == 0,
            r.username@.len() == 0,
            r.encrypted_password@.len() == 0,
            r.location is Some && r.location->Some_0@ == "Unknown"@,
            r.description is None,
            r.server_type == ServerType::Linux,
            r.category == ServerCategory::Physical,
            !r.is_online,
            r.last_seen_at is None,
            r.metadata is Some && r.metadata->Some_0@ == "{}"@,
            r.created_by is None,
            r.updated_at == r.created_at,
    {
        let now = now_millis();
        Server {
            id: fresh_id(),
            name: String::new(),
            hostname: String::new(),
            ip_address: None,
            port: 0,
            username: String::new(),
            encrypted_password: String::new(),
            location: Some(owned("Unknown")),
            description: None,
            server_type: ServerType::Linux,
            category: ServerCategory::Physical,
            is_online: false,
            last_seen_at: None,
            metadata: Some(owned("{}")),
            created_by: None,
            created_at: now,
            updated_at: now,
        }
    }
}

/// What a `MetricsSnapshot` holds.
pub struct MetricsSnapshotView {
    pub id: i64,
    pub server_id: Seq<char>,
    pub cpu_usage: u32,
    pub memory_usage: u32,
    pub disk_usage: u32,
    pub network_rx: i64,
    pub network_tx: i64,
    pub processes: Seq<ProcessMetrics>,
    pub timestamp: i64,
}

/// One persisted record of the history of a server. Usage figures are in
/// hundredths of a percent, `timestamp` in milliseconds since the Unix epoch.
#[derive(Debug, PartialEq, Eq)]
pub struct MetricsSnapshot {
    pub id: i64,
    pub server_id: String,
    pub cpu_usage: u32,
    pub memory_usage: u32,
    pub disk_usage: u32,
    pub network_rx: i64,
    pub network_tx: i64,
    pub processes: Vec<ProcessMetrics>,
    pub timestamp: i64,
}

impl View for MetricsSnapshot {
    type V = MetricsSnapshotView;

    open spec fn view(&self) -> MetricsSnapshotView {
        MetricsSnapshotView {
            id: self.id,
            server_id: self.server_id@,
            cpu_usage: self.cpu_usage,
            memory_usage: self.memory_usage,
            disk_usage: self.disk_usage,
            network_rx: self.network_rx,
            network_tx: self.network_tx,
            processes: self.processes@,
            timestamp: self.timestamp,
        }
    }
}

impl Clone for MetricsSnapshot {
    fn clone(&self) -> (r: Self)
        ensures
            r@ == self@,
    {
        MetricsSnapshot {
            id: self.id,
            server_id: self.server_id.clone(),
            cpu_usage: self.cpu_usage,
            memory_usage: self.memory_usage,
            disk_usage: self.disk_usage,
            network_rx: self.network_rx,
            network_tx: self.network_tx,
            processes: crate::models::metrics::clone_processes(&self.processes),
            timestamp: self.timestamp,
        }
    }
}

/// What an `Alert` holds.
pub struct AlertView {
    pub id: i64,
    pub server_id: Seq<char>,
    pub alert_type: Seq<char>,
    pub severity: AlertSeverity,
    pub message: Seq<char>,
    pub created_at: i64,
    pub acknowledged_at: Option<i64>,
    pub acknowledged_by: Option<Seq<char>>,
}

/// A notice that a figure of a server crossed a threshold.
#[derive(Debug, PartialEq, Eq)]
pub struct Alert {
    pub id: i64,
    pub server_id: String,
    pub alert_type: String,
    pub severity: AlertSeverity,
    pub message: String,
    pub created_at: i64,
    pub acknowledged_at: Option<i64>,
    pub acknowledged_by: Option<String>,
}

impl View for Alert {
    type V = AlertView;

    open spec fn view(&self) -> AlertView {
        AlertView {
            id: self.id,
            server_id: self.server_id@,
            alert_type: self.alert_type@,
            severity: self.severity,
            message: self.message@,
            created_at: self.created_at,
            acknowledged_at: self.acknowledged_at,
            acknowledged_by: crate::text::text_of(self.acknowledged_by),
        }
    }
}

impl Alert {
    /// Whether somebody has acknowledged the alert.
    pub fn is_acknowledged(&self) -> (r: bool)
        ensures
            r == self.acknowledged_at is Some,
    {
        self.acknowledged_at.is_some()
    }

    /// Records that `by` acknowledged the alert at `at`. An alert is
    /// acknowledged once: on one that already is, nothing changes.
    pub fn acknowledge(&mut self, at: i64, by: Option<String>)
        ensures
            old(self).acknowledged_at is Some ==> final(self)@ == old(self)@,
            old(self).acknowledged_at is None ==> final(self)@ == (AlertView {
                acknowledged_at: Some(at),
                acknowledged_by: crate::text::text_of(by),
                ..old(self)@
            }),
    {
        if self.acknowledged_at.is_none() {
            self.acknowledged_at = Some(at);
            self.acknowledged_by = by;
        }
    }
}

/// An account. Instants are in milliseconds since the Unix epoch.
#[derive(Debug)]
pub struct User {
    pub id: String,
    pub email: String,
    pub password_hash: Option<String>,
    pub name: String,
    pub role: UserRole,
    pub provider: AuthProvider,
    pub profile_image_url: Option<String>,
    pub created_at: i64,
    pub updated_at: i64,
    pub last_login_at: Option<i64>,
}

impl Default for User {
    /// A blank account of an ordinary user who signs in by email, created now.
    fn default() -> (r: Self)
        ensures
            r.id@.len() == 0,
            r.email@.len() == 0,
            r.password_hash is None,
            r.name@.len() == 0,
            r.role == UserRole::User,
            r.provider == AuthProvider::Email,
            r.profile_image_url is None,
            r.updated_at == r.created_at,
            r.last_login_at is None,
    {
        let now = now_millis();
        User {
            id: String::new(),
            email: String::new(),
            password_hash: None,
            name: String::new(),
            role: UserRole::User,
            provider: AuthProvider::Email,
            profile_image_url: None,
            created_at: now,
            updated_at: now,
            last_login_at: None,
        }
    }
}

/// A refresh token on record.
#[derive(Debug)]
pub struct RefreshToken {
    pub id: String,
    pub user_id: String,
    pub token: String,
    pub expires_at: i64,
    pub created_at: i64,
}

/// A signed-in session on record.
#[derive(Debug)]
pub struct UserSession {
    pub id: String,
    pub user_id: String,
    pub device_info: Option<String>,
    pub last_activity: i64,
    pub created_at: i64,
}

} // verus!
