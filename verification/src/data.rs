//! Saved database connections: their kinds, how they are shown, and where
//! they are kept on disk.
use vstd::prelude::*;

use crate::i18n::Locale;
use crate::text::{decimal, u64_to_decimal};

verus! {

/// The database systems a connection can point at.
#[derive(Clone, Copy, Debug, PartialEq, Eq, Structural)]
pub enum ConnectionKind {
    MySql,
    Sqlite,
    PostgreSql,
    Redis,
    MongoDb,
}

impl ConnectionKind {
    /// Every kind, in the order the connection form lists them.
    pub const ALL: [ConnectionKind; 5] = [
        ConnectionKind::MySql,
        ConnectionKind::Sqlite,
        ConnectionKind::PostgreSql,
        ConnectionKind::Redis,
        ConnectionKind::MongoDb,
    ];

    pub open spec fn label_text(self) -> Seq<char> {
        match self {
            ConnectionKind::MySql => "MySQL"@,
            ConnectionKind::Sqlite => "SQLite"@,
            ConnectionKind::PostgreSql => "PostgreSQL"@,
            ConnectionKind::Redis => "Redis"@,
            ConnectionKind::MongoDb => "MongoDB"@,
        }
    }

    /// The product name of the database system.
    pub fn label(self) -> (r: &'static str)
        ensures
            r@ == self.label_text(),
    {
        match self {
            ConnectionKind::MySql => "MySQL",
            ConnectionKind::Sqlite => "SQLite",
            ConnectionKind::PostgreSql => "PostgreSQL",
            ConnectionKind::Redis => "Redis",
            ConnectionKind::MongoDb => "MongoDB",
        }
    }

    pub open spec fn badge_text(self) -> Seq<char> {
        match self {
            ConnectionKind::MySql => "MYSQL"@,
            ConnectionKind::Sqlite => "SQLITE"@,
            ConnectionKind::PostgreSql => "PG"@,
            ConnectionKind::Redis => "REDIS"@,
            ConnectionKind::MongoDb => "MONGO"@,
        }
    }

    /// The short tag shown beside a connection in the sidebar.
    pub fn badge(self) -> (r: &'static str)
        ensures
            r@ == self.badge_text(),
    {
        match self {
            ConnectionKind::MySql => "MYSQL",
            ConnectionKind::Sqlite => "SQLITE",
            ConnectionKind::PostgreSql => "PG",
            ConnectionKind::Redis => "REDIS",
            ConnectionKind::MongoDb => "MONGO",
        }
    }

    pub open spec fn spec_default_port(self) -> u16 {
        match self {
            ConnectionKind::MySql => 3306,
            ConnectionKind::Sqlite => 0,
            ConnectionKind::PostgreSql => 5432,
            ConnectionKind::Redis => 6379,
            ConnectionKind::MongoDb => 27017,
        }
    }

    /// The port the server listens on by default; 0 for SQLite, which has none.
    pub fn default_port(self) -> (r: u16)
        ensures
            r == self.spec_default_port(),
    {
        match self {
            ConnectionKind::MySql => 3306,
            ConnectionKind::Sqlite => 0,
            ConnectionKind::PostgreSql => 5432,
            ConnectionKind::Redis => 6379,
            ConnectionKind::MongoDb => 27017,
        }
    }
}

/// A saved connection.
#[derive(Debug)]
pub struct Connection {
    pub kind: ConnectionKind,
    pub name: String,
    pub host: String,
    pub port: u16,
    pub database: String,
    pub username: String,
    pub password: String,
    pub file_path: String,
    pub active: bool,
}

impl Clone for Connection {
    fn clone(&self) -> (r: Self)
        ensures
            r == *self,
    {
        Connection {
            kind: self.kind,
            name: self.name.clone(),
            host: self.host.clone(),
            port: self.port,
            database: self.database.clone(),
            username: self.username.clone(),
            password: self.password.clone(),
            file_path: self.file_path.clone(),
            active: self.active,
        }
    }
}

/// `scheme://host:port`.
pub open spec fn host_port_url(scheme: Seq<char>, host: Seq<char>, port: u16) -> Seq<char> {
    scheme + "://"@ + host + ":"@ + decimal(port as nat)
}

fn append_host_port(s: &mut String, host: &str, port: u16)
    ensures
        final(s)@ == old(s)@ + host@ + ":"@ + decimal(port as nat),
{
    s.append(host);
    s.append(":");
    let digits = u64_to_decimal(port as u64);
    s.append(digits.as_str());
}

impl Connection {
    /// The address of the connection as the sidebar shows it.
    pub open spec fn endpoint_text(self) -> Seq<char> {
        match self.kind {
            ConnectionKind::Sqlite => if self.file_path@.len() == 0 {
                "sqlite:///choose-a-file.db"@
            } else {
                "sqlite://"@ + self.file_path@
            },
            ConnectionKind::MySql => host_port_url("mysql"@, self.host@, self.port),
            ConnectionKind::PostgreSql => host_port_url("postgres"@, self.host@, self.port),
            ConnectionKind::Redis => host_port_url("redis"@, self.host@, self.port),
            ConnectionKind::MongoDb => host_port_url("mongodb"@, self.host@, self.port),
        }
    }

    pub fn endpoint(&self) -> (r: String)
        ensures
            r@ == self.endpoint_text(),
    {
        match self.kind {
            ConnectionKind::Sqlite => {
                if self.file_path.as_str().is_empty() {
                    String::from_str("sqlite:///choose-a-file.db")
                } else {
                    let mut s = String::from_str("sqlite://");
                    s.append(self.file_path.as_str());
                    s
                }
            },
            ConnectionKind::MySql => {
                let mut s = String::from_str("mysql");
                s.append("://");
                append_host_port(&mut s, self.host.as_str(), self.port);
                s
            },
            ConnectionKind::PostgreSql => {
                let mut s = String::from_str("postgres");
                s.append("://");
                append_host_port(&mut s, self.host.as_str(), self.port);
                s
            },
            ConnectionKind::Redis => {
                let mut s = String::from_str("redis");
                s.append("://");
                append_host_port(&mut s, self.host.as_str(), self.port);
                s
            },
            ConnectionKind::MongoDb => {
                let mut s = String::from_str("mongodb");
                s.append("://");
                append_host_port(&mut s, self.host.as_str(), self.port);
                s
            },
        }
    }

    /// The second line under a connection: what it stores, in `locale`.
    pub open spec fn meta_text(self, locale: Locale) -> Seq<char> {
        match self.kind {
            ConnectionKind::Sqlite => if self.file_path@.len() == 0 {
                locale.sqlite_file_text()
            } else {
                self.file_path@
            },
            ConnectionKind::Redis => if self.database@.len() == 0 {
                locale.memory_cache_text()
            } else {
                "db "@ + self.database@
            },
            _ => if self.database@.len() == 0 {
                locale.endpoint_label_text(self.kind.label_text())
            } else {
                self.database@
            },
        }
    }

    pub fn meta(&self, locale: Locale) -> (r: String)
        ensures
            r@ == self.meta_text(locale),
    {
        match self.kind {
            ConnectionKind::Sqlite => {
                if self.file_path.as_str().is_empty() {
                    locale.sqlite_file().to_owned()
                } else {
                    self.file_path.clone()
                }
            },
            ConnectionKind::Redis => {
                if self.database.as_str().is_empty() {
                    locale.memory_cache().to_owned()
                } else {
                    let mut s = String::from_str("db ");
                    s.append(self.database.as_str());
                    s
                }
            },
            _ => {
                if self.database.as_str().is_empty() {
                    locale.endpoint_label(self.kind.label())
                } else {
                    self.database.clone()
                }
            },
        }
    }
}

/// The directory that the connections file is kept under.
#[derive(Clone, Copy, Debug, PartialEq, Eq, Structural)]
pub enum ConfigRoot {
    /// The directory named by `APPDATA`.
    AppData,
    /// The directory named by `HOME`.
    Home,
    /// The working directory.
    WorkingDirectory,
}

/// Where the connections file lies: `APPDATA` wins over `HOME`; without
/// either the file lies in the working directory.
pub open spec fn connections_file_root(has_appdata: bool, has_home: bool) -> ConfigRoot {
    if has_appdata {
        ConfigRoot::AppData
    } else if has_home {
        ConfigRoot::Home
    } else {
        ConfigRoot::WorkingDirectory
    }
}

/// The path components below the root.
pub open spec fn connections_file_segments(root: ConfigRoot) -> Seq<Seq<char>> {
    match root {
        ConfigRoot::AppData => seq!["SuperTable"@, "connections.json"@],
        ConfigRoot::Home => seq![".config"@, "supertable"@, "connections.json"@],
        ConfigRoot::WorkingDirectory => seq!["connections.json"@],
    }
}

/// Chooses the location of the connections file from which of the two
/// environment variables are set.
pub fn connections_file_path(has_appdata: bool, has_home: bool) -> (r: (ConfigRoot, Vec<String>))
    ensures
        r.0 == connections_file_root(has_appdata, has_home),
        r.1@.map_values(|s: String| s@) == connections_file_segments(r.0),
{
    let mut segments: Vec<String> = Vec::new();
    if has_appdata {
        segments.push(String::from_str("SuperTable"));
        segments.push(String::from_str("connections.json"));
        assert(segments@.map_values(|s: String| s@) =~= seq!["SuperTable"@, "connections.json"@]);
        (ConfigRoot::AppData, segments)
    } else if has_home {
        segments.push(String::from_str(".config"));
        segments.push(String::from_str("supertable"));
        segments.push(String::from_str("connections.json"));
        assert(segments@.map_values(|s: String| s@) =~= seq![
            ".config"@,
            "supertable"@,
            "connections.json"@,
        ]);
        (ConfigRoot::Home, segments)
    } else {
        segments.push(String::from_str("connections.json"));
        assert(segments@.map_values(|s: String| s@) =~= seq!["connections.json"@]);
        (ConfigRoot::WorkingDirectory, segments)
    }
}

} // verus!
