//! Where the readings are sent: the database settings, fixed at startup.

use vstd::prelude::*;

verus! {

/// One of the four settings that name the database.
#[derive(Debug, Clone, Copy, PartialEq, Eq, Structural)]
pub enum Setting {
    /// Address of the database server.
    Address,
    /// Name of the user.
    User,
    /// Password of the user.
    Password,
    /// Name of the database.
    Database,
}

impl Setting {
    /// The environment variable that holds this setting.
    pub open spec fn variable_of(self) -> Seq<char> {
        match self {
            Setting::Address => "INFLUX_ADDRESS"@,
            Setting::User => "INFLUX_USER"@,
            Setting::Password => "INFLUX_PASSWORD"@,
            Setting::Database => "INFLUX_DATABASE"@,
        }
    }

    /// The environment variable that holds this setting.
    pub fn variable(self) -> (name: &'static str)
        ensures
            name@ == self.variable_of(),
    {
        match self {
            Setting::Address => "INFLUX_ADDRESS",
            Setting::User => "INFLUX_USER",
            Setting::Password => "INFLUX_PASSWORD",
            Setting::Database => "INFLUX_DATABASE",
        }
    }
}

/// The database the readings are sent to. Built once when the process starts
/// and lent to whatever needs it.
#[derive(Debug, Clone, PartialEq, Eq)]
pub struct Database {
    /// Address of the database server.
    pub address: String,
    /// Name of the user.
    pub username: String,
    /// Password of the user.
    pub password: String,
    /// Name of the database.
    pub database: String,
}

/// The first setting that is absent, in the order address, user, password,
/// database; none if all four are present.
pub open spec fn first_missing(
    address: Option<String>,
    username: Option<String>,
    password: Option<String>,
    database: Option<String>,
) -> Option<Setting> {
    if address is None {
        Some(Setting::Address)
    } else if username is None {
        Some(Setting::User)
    } else if password is None {
        Some(Setting::Password)
    } else if database is None {
        Some(Setting::Database)
    } else {
        None
    }
}

impl Database {
    /// Builds the database settings from what the environment holds.
    ///
    /// All four settings are needed. Where one is absent the result names the
    /// first that is; the process cannot start without it.
    pub fn from_environment(
        address: Option<String>,
        username: Option<String>,
        password: Option<String>,
        database: Option<String>,
    ) -> (result: Result<Database, Setting>)
        ensures
            result is Ok <==> first_missing(address, username, password, database) is None,
            result matches Ok(found) ==> {
                &&& address == Some(found.address)
                &&& username == Some(found.username)
                &&& password == Some(found.password)
                &&& database == Some(found.database)
            },
            result matches Err(missing) ==> first_missing(address, username, password, database)
                == Some(missing),
    {
        let address = match address {
            Some(address) => address,
            None => {
                return Err(Setting::Address);
            },
        };
        let username = match username {
            Some(username) => username,
            None => {
                return Err(Setting::User);
            },
        };
        let password = match password {
            Some(password) => password,
            None => {
                return Err(Setting::Password);
            },
        };
        let database = match database {
            Some(database) => database,
            None => {
                return Err(Setting::Database);
            },
        };
        Ok(Database { address, username, password, database })
    }
}

} // verus!
