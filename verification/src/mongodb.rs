use vstd::prelude::*;

use crate::preview_features::PreviewFeatures;

verus! {

/// An error of a schema connector, told by its message.
#[derive(Debug)]
pub struct ConnectorError {
    pub message: String,
}

impl ConnectorError {
    /// An error with the given message.
    pub fn from_msg(message: String) -> (e: ConnectorError)
        ensures
            e.message == message,
    {
        ConnectorError { message }
    }
}

/// What a schema connector is built from.
#[derive(Debug)]
pub struct ConnectorParams {
    pub connection_string: String,
    pub preview_features: PreviewFeatures,
    pub shadow_database_connection_string: Option<String>,
}

/// The message of the error for commands that MongoDB does not support.
pub open spec fn unsupported_command_message() -> Seq<char> {
    "The \"mongodb\" provider is not supported with this command. For more info see https://www.prisma.io/docs/concepts/database-connectors/mongodb"@
}

/// The error for commands that MongoDB does not support.
pub fn unsupported_command_error() -> (e: ConnectorError)
    ensures
        e.message@ == unsupported_command_message(),
{
    ConnectorError::from_msg(
        String::from_str(
            "The \"mongodb\" provider is not supported with this command. For more info see https://www.prisma.io/docs/concepts/database-connectors/mongodb",
        ),
    )
}

/// A database schema as schema connectors hand it around. Its contents are
/// the schema describer's; the MongoDB connector never computes one from
/// migrations.
#[derive(Debug)]
pub struct DatabaseSchema;

/// The MongoDB schema dialect.
#[derive(Debug)]
pub struct MongoDbSchemaDialect;

impl MongoDbSchemaDialect {
    /// Migrations cannot be rendered to a script on MongoDB: always fails.
    pub fn render_script(&self) -> (r: Result<String, ConnectorError>)
        ensures
            r matches Err(e) && e.message@ == "Rendering to a script is not supported on MongoDB."@,
    {
        Err(ConnectorError::from_msg(String::from_str("Rendering to a script is not supported on MongoDB.")))
    }

    /// A schema cannot be computed from migrations on MongoDB: always fails.
    pub fn schema_from_migrations_with_target(&self) -> (r: Result<DatabaseSchema, ConnectorError>)
        ensures
            r matches Err(e) && e.message@ == unsupported_command_message(),
    {
        Err(unsupported_command_error())
    }

    /// Migrations are not checked against a target database: always succeeds.
    pub fn validate_migrations_with_target(&mut self) -> (r: Result<(), ConnectorError>)
        ensures
            r is Ok,
    {
        Ok(())
    }
}

/// The top-level MongoDB migration connector.
#[derive(Debug)]
pub struct MongoDbSchemaConnector {
    connection_string: String,
    preview_features: PreviewFeatures,
}

impl MongoDbSchemaConnector {
    /// The connection string the connector was built with.
    pub closed spec fn connection_string_spec(&self) -> Seq<char> {
        self.connection_string@
    }

    /// The preview features in force.
    pub closed spec fn preview_features_spec(&self) -> PreviewFeatures {
        self.preview_features
    }

    /// A connector for the database that `params` names, not yet connected.
    pub fn new(params: ConnectorParams) -> (c: MongoDbSchemaConnector)
        ensures
            c.connection_string_spec() == params.connection_string@,
            c.preview_features_spec() == params.preview_features,
    {
        MongoDbSchemaConnector {
            connection_string: params.connection_string,
            preview_features: params.preview_features,
        }
    }

    /// The dialect of the connector.
    pub fn schema_dialect(&self) -> MongoDbSchemaDialect {
        MongoDbSchemaDialect
    }

    /// Scripts cannot be applied on MongoDB: always fails.
    pub fn apply_script(&mut self, _migration_name: &str, _script: &str) -> (r: Result<(), ConnectorError>)
        ensures
            r matches Err(e) && e.message@ == unsupported_command_message(),
            *final(self) == *old(self),
    {
        Err(unsupported_command_error())
    }

    /// The connector's type: `mongodb`.
    pub fn connector_type(&self) -> (t: &'static str)
        ensures
            t@ == "mongodb"@,
    {
        "mongodb"
    }

    /// Raw scripts cannot be executed on MongoDB: always fails.
    pub fn db_execute(&mut self, _script: String) -> (r: Result<(), ConnectorError>)
        ensures
            r matches Err(e) && e.message@ == "dbExecute is not supported on MongoDB"@,
            *final(self) == *old(self),
    {
        Err(ConnectorError::from_msg(String::from_str("dbExecute is not supported on MongoDB")))
    }

    /// The connection is checked on first use, not here: always succeeds.
    pub fn ensure_connection_validity(&mut self) -> (r: Result<(), ConnectorError>)
        ensures
            r is Ok,
            *final(self) == *old(self),
    {
        Ok(())
    }

    /// The supported server versions: `4 or 5`.
    pub fn version(&mut self) -> (r: Result<String, ConnectorError>)
        ensures
            r matches Ok(v) && v@ == "4 or 5"@,
            *final(self) == *old(self),
    {
        Ok(String::from_str("4 or 5"))
    }

    /// MongoDB needs no migration lock: always succeeds.
    pub fn acquire_lock(&mut self) -> (r: Result<(), ConnectorError>)
        ensures
            r is Ok,
            *final(self) == *old(self),
    {
        Ok(())
    }

    /// Replaces the preview features in force.
    pub fn set_preview_features(&mut self, preview_features: PreviewFeatures)
        ensures
            final(self).preview_features_spec() == preview_features,
            final(self).connection_string_spec() == old(self).connection_string_spec(),
    {
        self.preview_features = preview_features;
    }

    /// Migrations are not validated on MongoDB: always succeeds.
    pub fn validate_migrations(&mut self) -> (r: Result<(), ConnectorError>)
        ensures
            r is Ok,
            *final(self) == *old(self),
    {
        Ok(())
    }

    /// A schema cannot be computed from migrations on MongoDB: always fails.
    pub fn schema_from_migrations(&mut self) -> (r: Result<DatabaseSchema, ConnectorError>)
        ensures
            r matches Err(e) && e.message@ == unsupported_command_message(),
            *final(self) == *old(self),
    {
        Err(unsupported_command_error())
    }

    /// Nothing to release: always succeeds.
    pub fn dispose(&mut self) -> (r: Result<(), ConnectorError>)
        ensures
            r is Ok,
            *final(self) == *old(self),
    {
        Ok(())
    }
}

} // verus!
