//! Connection parameters: server, port and credentials, read and updated by
//! field name, and their TOML document when they came from a settings file.
use vstd::prelude::*;
use vstd::string::{StrSliceExecFns, StringExecFns};

verus! {

/// What a set of connection parameters holds.
pub struct SettingsModel {
    pub server: Seq<char>,
    pub port: Seq<char>,
    pub user: Seq<char>,
    pub password: Seq<char>,
    pub from_file: bool,
}

/// The value of the named field, if `name` is one of server, port, user, password.
pub open spec fn field_of(m: SettingsModel, name: Seq<char>) -> Option<Seq<char>> {
    if name == "server"@ {
        Some(m.server)
    } else if name == "port"@ {
        Some(m.port)
    } else if name == "user"@ {
        Some(m.user)
    } else if name == "password"@ {
        Some(m.password)
    } else {
        None
    }
}

/// `m` with the named field set to `value`; unchanged for an unknown name.
pub open spec fn with_field(m: SettingsModel, name: Seq<char>, value: Seq<char>) -> SettingsModel {
    if name == "server"@ {
        SettingsModel { server: value, ..m }
    } else if name == "port"@ {
        SettingsModel { port: value, ..m }
    } else if name == "user"@ {
        SettingsModel { user: value, ..m }
    } else if name == "password"@ {
        SettingsModel { password: value, ..m }
    } else {
        m
    }
}

/// Error text for a field name that does not exist.
pub open spec fn invalid_field_message(name: Seq<char>) -> Seq<char> {
    "invalid field name to get '"@ + name + "'"@
}

/// Name of the settings file's table that holds the connection parameters.
pub open spec fn settings_section() -> Seq<char> {
    "connection_settings"@
}

/// The key/value entries written to the settings file.
pub open spec fn settings_entries(m: SettingsModel) -> Seq<(Seq<char>, Seq<char>)> {
    seq![
        ("server"@, m.server),
        ("port"@, m.port),
        ("user"@, m.user),
        ("password"@, m.password),
    ]
}

/// The TOML text that `toml::to_string` gives for a document holding one table
/// named `section` with these string entries.
pub uninterp spec fn toml_table_document(section: Seq<char>, entries: Seq<(Seq<char>, Seq<char>)>) -> Seq<char>;

/// Relies on `toml::to_string`: serialises a one-table document of string
/// entries. It fails only for a failing `Serialize` impl, non-string map keys
/// or unsupported types, none of which a map of strings holds, so it succeeds;
/// the text depends on the section and entries alone (keys in sorted order).
#[verifier::external_body]
fn toml_table(section: &str, entries: &Vec<(String, String)>) -> (r: Result<String, String>)
    ensures
        r is Ok,
        r is Ok ==> r->Ok_0@ == toml_table_document(
            section@,
            entries@.map_values(|e: (String, String)| (e.0@, e.1@)),
        ),
{
    let table: std::collections::BTreeMap<&str, &str> = entries
        .iter()
        .map(|e| (e.0.as_str(), e.1.as_str()))
        .collect();
    let mut document = std::collections::BTreeMap::new();
    document.insert(section, table);
    toml::to_string(&document).map_err(|e| e.to_string())
}

/// Whether two strings hold the same characters.
fn same_text(a: &str, b: &str) -> (r: bool)
    ensures
        r == (a@ == b@),
{
    let n = a.unicode_len();
    if n != b.unicode_len() {
        return false;
    }
    let mut i: usize = 0;
    while i < n
        invariant
            n == a@.len() == b@.len(),
            0 <= i <= n,
            forall|k: int| 0 <= k < i ==> a@[k] == b@[k],
        decreases n - i,
    {
        if a.get_char(i) != b.get_char(i) {
            return false;
        }
        i = i + 1;
    }
    assert(a@ =~= b@);
    true
}

pub(crate) fn text(s: &str) -> (r: String)
    ensures
        r@ == s@,
{
    <String as StringExecFns>::from_str(s)
}

pub struct ConnectionSettings {
    server: String,
    port: String,
    user: String,
    password: String,
    from_file: bool,
}

impl View for ConnectionSettings {
    type V = SettingsModel;

    closed spec fn view(&self) -> SettingsModel {
        SettingsModel {
            server: self.server@,
            port: self.port@,
            user: self.user@,
            password: self.password@,
            from_file: self.from_file,
        }
    }
}

impl ConnectionSettings {
    /// Parameters given directly; nothing is persisted on update.
    pub fn new(server: &str, port: &str, user: &str, pass: &str) -> (r: ConnectionSettings)
        ensures
            r@ == (SettingsModel {
                server: server@,
                port: port@,
                user: user@,
                password: pass@,
                from_file: false,
            }),
    {
        ConnectionSettings {
            server: text(server),
            port: text(port),
            user: text(user),
            password: text(pass),
            from_file: false,
        }
    }

    /// Parameters read from the settings file; updates are to be written back.
    pub fn from_file_values(server: &str, port: &str, user: &str, pass: &str) -> (r: ConnectionSettings)
        ensures
            r@ == (SettingsModel {
                server: server@,
                port: port@,
                user: user@,
                password: pass@,
                from_file: true,
            }),
    {
        ConnectionSettings {
            server: text(server),
            port: text(port),
            user: text(user),
            password: text(pass),
            from_file: true,
        }
    }

    /// Whether the parameters came from the settings file.
    pub fn is_from_file(&self) -> (r: bool)
        ensures
            r == self@.from_file,
    {
        self.from_file
    }

    /// The named field, or an error naming the unknown field.
    pub fn get_result(&self, field_string: &str) -> (r: Result<&str, String>)
        ensures
            field_of(self@, field_string@) is Some ==> r is Ok && r->Ok_0@ == field_of(
                self@,
                field_string@,
            )->Some_0,
            field_of(self@, field_string@) is None ==> r is Err && r->Err_0@
                == invalid_field_message(field_string@),
    {
        proof {
            reveal_strlit("server");
            reveal_strlit("port");
            reveal_strlit("user");
            reveal_strlit("password");
        }
        if same_text(field_string, "server") {
            Ok(self.server.as_str())
        } else if same_text(field_string, "port") {
            Ok(self.port.as_str())
        } else if same_text(field_string, "user") {
            Ok(self.user.as_str())
        } else if same_text(field_string, "password") {
            Ok(self.password.as_str())
        } else {
            let mut message = text("invalid field name to get '");
            message.append(field_string);
            message.append("'");
            Err(message)
        }
    }

    /// The named field, or the empty string for an unknown name.
    pub fn get(&self, field: &str) -> (r: &str)
        ensures
            r@ == match field_of(self@, field@) {
                Some(v) => v,
                None => Seq::<char>::empty(),
            },
    {
        match self.get_result(field) {
            Ok(value) => value,
            Err(_) => {
                proof {
                    reveal_strlit("");
                }
                ""
            },
        }
    }

    /// Sets the named field; an unknown name changes nothing. Always succeeds:
    /// writing the settings file back is left to the caller, see `save_config`.
    pub fn update(&mut self, field_string: &str, value: &str) -> (r: Result<(), String>)
        ensures
            r is Ok,
            final(self)@ == with_field(old(self)@, field_string@, value@),
    {
        proof {
            reveal_strlit("server");
            reveal_strlit("port");
            reveal_strlit("user");
            reveal_strlit("password");
        }
        if same_text(field_string, "server") {
            self.server = text(value);
        } else if same_text(field_string, "port") {
            self.port = text(value);
        } else if same_text(field_string, "user") {
            self.user = text(value);
        } else if same_text(field_string, "password") {
            self.password = text(value);
        }
        Ok(())
    }

    /// The TOML text of the settings file for these parameters.
    pub fn save_config(&self) -> (r: Result<String, String>)
        ensures
            r is Ok,
            r->Ok_0@ == toml_table_document(settings_section(), settings_entries(self@)),
    {
        let mut entries: Vec<(String, String)> = Vec::new();
        entries.push((text("server"), self.server.clone()));
        entries.push((text("port"), self.port.clone()));
        entries.push((text("user"), self.user.clone()));
        entries.push((text("password"), self.password.clone()));
        let section = "connection_settings";
        let document = toml_table(section, &entries);
        proof {
            assert(entries@.map_values(|e: (String, String)| (e.0@, e.1@)) =~= settings_entries(self@));
        }
        document
    }
}

} // verus!
