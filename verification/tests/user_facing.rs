use prisma_engines::user_facing::{
    push_decimal, ConnectionClosed, DatabaseAccessDenied, DatabaseAlreadyExists,
    DatabaseDoesNotExist, DatabaseNotReachable, DatabaseOperationTimeout, DatabaseTimeout,
    DatabaseVersionIncompatibility, IncorrectDatabaseCredentials, IncorrectNumberOfParameters,
    InvalidConnectionString, InvalidModel, ModelKind, SchemaParserError, SimpleUserFacingError,
    TlsConnectionError, TransactionAlreadyClosed, UnsupportedFeatureError, UserFacingError,
};

#[test]
fn database_does_not_exist_formats_properly() {
    let sqlite_err = DatabaseDoesNotExist {
        database_name: "dev.db".into(),
    };

    assert_eq!(sqlite_err.message(), "Database `dev.db` does not exist");
}

#[test]
fn error_codes_are_the_documented_ones() {
    assert_eq!(IncorrectDatabaseCredentials::ERROR_CODE, "P1000");
    assert_eq!(DatabaseNotReachable::ERROR_CODE, "P1001");
    assert_eq!(DatabaseTimeout::ERROR_CODE, "P1002");
    assert_eq!(DatabaseDoesNotExist::ERROR_CODE, "P1003");
    assert_eq!(DatabaseOperationTimeout::ERROR_CODE, "P1008");
    assert_eq!(DatabaseAlreadyExists::ERROR_CODE, "P1009");
    assert_eq!(DatabaseAccessDenied::ERROR_CODE, "P1010");
    assert_eq!(TlsConnectionError::ERROR_CODE, "P1011");
    assert_eq!(SchemaParserError::ERROR_CODE, "P1012");
    assert_eq!(InvalidConnectionString::ERROR_CODE, "P1013");
    assert_eq!(InvalidModel::ERROR_CODE, "P1014");
    assert_eq!(DatabaseVersionIncompatibility::ERROR_CODE, "P1015");
    assert_eq!(IncorrectNumberOfParameters::ERROR_CODE, "P1016");
    assert_eq!(<ConnectionClosed as SimpleUserFacingError>::ERROR_CODE, "P1017");
    assert_eq!(TransactionAlreadyClosed::ERROR_CODE, "P1018");
    assert_eq!(UnsupportedFeatureError::ERROR_CODE, "P1019");
}

#[test]
fn incorrect_credentials_names_the_user() {
    let e = IncorrectDatabaseCredentials { database_user: "root".into() };
    assert_eq!(
        e.message(),
        "Authentication failed against database server, the provided database credentials for `root` are not valid.\n\nPlease make sure to provide valid database credentials for the database server at the configured address."
    );
}

#[test]
fn not_reachable_names_the_location_twice() {
    let e = DatabaseNotReachable { database_location: "localhost:5432".into() };
    assert_eq!(
        e.message(),
        "Can't reach database server at `localhost:5432`\n\nPlease make sure your database server is running at `localhost:5432`."
    );
}

#[test]
fn timeout_ends_with_context_and_newline() {
    let e = DatabaseTimeout { context: "handshake".into() };
    assert_eq!(
        e.message(),
        "The database server was reached but timed out.\n\nPlease try again.\n\nPlease make sure your database server is running at the configured address.\n\nContext: handshake\n"
    );
}

#[test]
fn operation_timeout_appends_the_hint() {
    let e = DatabaseOperationTimeout { extra_hint: String::new() };
    assert_eq!(
        e.message(),
        "Socket timeout (the database failed to respond to a query within the configured timeout)."
    );
    let e = DatabaseOperationTimeout { extra_hint: " of 5s".into() };
    assert_eq!(
        e.message(),
        "Socket timeout (the database failed to respond to a query within the configured timeout of 5s)."
    );
}

#[test]
fn already_exists_and_access_denied_name_the_database() {
    let e = DatabaseAlreadyExists { database_name: "shop".into() };
    assert_eq!(e.message(), "Database `shop` already exists on the database server");
    let e = DatabaseAccessDenied { database_name: "shop".into() };
    assert_eq!(e.message(), "User was denied access on the database `shop`");
}

#[test]
fn pass_through_messages() {
    let e = TlsConnectionError { message: "bad certificate".into() };
    assert_eq!(e.message(), "Error opening a TLS connection: bad certificate");
    let e = SchemaParserError { full_error: "error: line 3".into() };
    assert_eq!(e.message(), "error: line 3");
    let e = InvalidConnectionString { details: "missing host".into() };
    assert_eq!(e.message(), "The provided database string is invalid. missing host");
    let e = TransactionAlreadyClosed { message: "closed by commit".into() };
    assert_eq!(e.message(), "closed by commit");
    let e = UnsupportedFeatureError { message: "no JSON".into() };
    assert_eq!(e.message(), "no JSON");
}

#[test]
fn model_kind_is_written_table() {
    assert_eq!(ModelKind::Table.to_string(), "table");
    let e = InvalidModel { model: "User".into(), kind: ModelKind::Table };
    assert_eq!(e.message(), "The underlying table for model `User` does not exist.");
}

#[test]
fn version_incompatibility_lists_errors() {
    let e = DatabaseVersionIncompatibility {
        database_version: "5.6".into(),
        errors: "no JSON columns".into(),
    };
    assert_eq!(
        e.message(),
        "Your Prisma schema is using features that are not supported for the version of the database.\nDatabase version: 5.6\nErrors:\nno JSON columns"
    );
}

#[test]
fn incorrect_number_of_parameters_writes_decimals() {
    let e = IncorrectNumberOfParameters { expected: 12, actual: 0 };
    assert_eq!(
        e.message(),
        "Your raw query had an incorrect number of parameters. Expected: `12`, actual: `0`."
    );
    let e = IncorrectNumberOfParameters { expected: usize::MAX, actual: 1009 };
    assert_eq!(
        e.message(),
        format!(
            "Your raw query had an incorrect number of parameters. Expected: `{}`, actual: `1009`.",
            usize::MAX
        )
    );
}

#[test]
fn push_decimal_appends() {
    let mut s = String::from("n=");
    push_decimal(&mut s, 0);
    assert_eq!(s, "n=0");
    push_decimal(&mut s, 4070);
    assert_eq!(s, "n=04070");
}

#[test]
fn connection_closed_message() {
    assert_eq!(
        <ConnectionClosed as SimpleUserFacingError>::MESSAGE,
        "Server has closed the connection."
    );
}
