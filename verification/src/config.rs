use vstd::prelude::*;

verus! {

/// Where the HTTP server listens.
#[derive(Debug, Clone)]
pub struct ServerConfig {
    pub host: String,
    pub port: u16,
}

/// How to reach the PostgreSQL database.
#[derive(Debug, Clone)]
pub struct DatabaseConfig {
    pub host: String,
    pub port: u16,
    pub user: String,
    pub password: String,
    pub database: String,
    pub schema: String,
}

impl DatabaseConfig {
    pub fn host(&self) -> (r: &str)
        ensures
            r@ == self.host@,
    {
        self.host.as_str()
    }

    pub fn port(&self) -> (r: u16)
        ensures
            r == self.port,
    {
        self.port
    }

    pub fn user(&self) -> (r: &str)
        ensures
            r@ == self.user@,
    {
        self.user.as_str()
    }

    pub fn password(&self) -> (r: &str)
        ensures
            r@ == self.password@,
    {
        self.password.as_str()
    }

    pub fn database(&self) -> (r: &str)
        ensures
            r@ == self.database@,
    {
        self.database.as_str()
    }

    pub fn schema(&self) -> (r: &str)
        ensures
            r@ == self.schema@,
    {
        self.schema.as_str()
    }
}

/// The whole application configuration.
#[derive(Debug, Clone)]
pub struct AppConfig {
    server: ServerConfig,
    database: DatabaseConfig,
}

impl AppConfig {
    /// The server section.
    pub closed spec fn spec_server(&self) -> ServerConfig {
        self.server
    }

    /// The database section.
    pub closed spec fn spec_database(&self) -> DatabaseConfig {
        self.database
    }

    /// Assembles a configuration from its two sections.
    pub fn new(server: ServerConfig, database: DatabaseConfig) -> (r: AppConfig)
        ensures
            r.spec_server() == server,
            r.spec_database() == database,
    {
        AppConfig { server, database }
    }

    pub fn server(&self) -> (r: &ServerConfig)
        ensures
            *r == self.spec_server(),
    {
        &self.server
    }

    pub fn database(&self) -> (r: &DatabaseConfig)
        ensures
            *r == self.spec_database(),
    {
        &self.database
    }
}

} // verus!
