use vstd::prelude::*;

verus! {

/// An error that is shown to the user with a stable code and a message.
pub trait UserFacingError {
    /// The stable error code, such as `P1003`.
    const ERROR_CODE: &'static str;

    /// The message, as a sequence of characters.
    spec fn message_spec(&self) -> Seq<char>;

    /// Renders the message.
    fn message(&self) -> (m: String)
        ensures
            m@ == self.message_spec(),
    ;
}

/// An error whose message does not depend on any value.
pub trait SimpleUserFacingError {
    /// The stable error code, such as `P1017`.
    const ERROR_CODE: &'static str;

    /// The fixed message.
    const MESSAGE: &'static str;
}

/// The character of a decimal digit.
pub open spec fn digit_char(d: nat) -> char {
    if d == 0 {
        '0'
    } else if d == 1 {
        '1'
    } else if d == 2 {
        '2'
    } else if d == 3 {
        '3'
    } else if d == 4 {
        '4'
    } else if d == 5 {
        '5'
    } else if d == 6 {
        '6'
    } else if d == 7 {
        '7'
    } else if d == 8 {
        '8'
    } else {
        '9'
    }
}

/// The decimal notation of `n`, without sign or leading zeros.
pub open spec fn decimal(n: nat) -> Seq<char>
    decreases n,
{
    if n < 10 {
        seq![digit_char(n)]
    } else {
        decimal(n / 10) + seq![digit_char(n % 10)]
    }
}

/// The one-character string of a decimal digit.
fn digit_str(d: usize) -> (s: &'static str)
    requires
        d < 10,
    ensures
        s@ == seq![digit_char(d as nat)],
{
    if d == 0 {
        proof {
            reveal_strlit("0");
        }
        "0"
    } else if d == 1 {
        proof {
            reveal_strlit("1");
        }
        "1"
    } else if d == 2 {
        proof {
            reveal_strlit("2");
        }
        "2"
    } else if d == 3 {
        proof {
            reveal_strlit("3");
        }
        "3"
    } else if d == 4 {
        proof {
            reveal_strlit("4");
        }
        "4"
    } else if d == 5 {
        proof {
            reveal_strlit("5");
        }
        "5"
    } else if d == 6 {
        proof {
            reveal_strlit("6");
        }
        "6"
    } else if d == 7 {
        proof {
            reveal_strlit("7");
        }
        "7"
    } else if d == 8 {
        proof {
            reveal_strlit("8");
        }
        "8"
    } else {
        proof {
            reveal_strlit("9");
        }
        "9"
    }
}

/// Appends the decimal notation of `n` to `out`.
pub fn push_decimal(out: &mut String, n: usize)
    ensures
        final(out)@ == old(out)@ + decimal(n as nat),
    decreases n,
{
    if n >= 10 {
        push_decimal(out, n / 10);
    }
    out.append(digit_str(n % 10));
}

/// P1000: the credentials were refused.
#[derive(Debug)]
pub struct IncorrectDatabaseCredentials {
    /// Database user name
    pub database_user: String,
}

impl UserFacingError for IncorrectDatabaseCredentials {
    const ERROR_CODE: &'static str = "P1000";

    open spec fn message_spec(&self) -> Seq<char> {
        "Authentication failed against database server, the provided database credentials for `"@
            + self.database_user@
            + "` are not valid.\n\nPlease make sure to provide valid database credentials for the database server at the configured address."@
    }

    fn message(&self) -> (m: String) {
        let mut m = String::from_str(
            "Authentication failed against database server, the provided database credentials for `",
        );
        m.append(self.database_user.as_str());
        m.append(
            "` are not valid.\n\nPlease make sure to provide valid database credentials for the database server at the configured address.",
        );
        m
    }
}

/// P1001: the server could not be reached.
#[derive(Debug)]
pub struct DatabaseNotReachable {
    pub database_location: String,
}

impl UserFacingError for DatabaseNotReachable {
    const ERROR_CODE: &'static str = "P1001";

    open spec fn message_spec(&self) -> Seq<char> {
        "Can't reach database server at `"@ + self.database_location@
            + "`\n\nPlease make sure your database server is running at `"@
            + self.database_location@ + "`."@
    }

    fn message(&self) -> (m: String) {
        let mut m = String::from_str("Can't reach database server at `");
        m.append(self.database_location.as_str());
        m.append("`\n\nPlease make sure your database server is running at `");
        m.append(self.database_location.as_str());
        m.append("`.");
        m
    }
}

/// P1002: the server was reached but did not answer in time.
#[derive(Debug)]
pub struct DatabaseTimeout {
    /// Extra context
    pub context: String,
}

impl UserFacingError for DatabaseTimeout {
    const ERROR_CODE: &'static str = "P1002";

    open spec fn message_spec(&self) -> Seq<char> {
        "The database server was reached but timed out.\n\nPlease try again.\n\nPlease make sure your database server is running at the configured address.\n\nContext: "@
            + self.context@ + "\n"@
    }

    fn message(&self) -> (m: String) {
        let mut m = String::from_str(
            "The database server was reached but timed out.\n\nPlease try again.\n\nPlease make sure your database server is running at the configured address.\n\nContext: ",
        );
        m.append(self.context.as_str());
        m.append("\n");
        m
    }
}

/// P1003: the named database does not exist.
#[derive(Debug)]
pub struct DatabaseDoesNotExist {
    pub database_name: String,
}

impl UserFacingError for DatabaseDoesNotExist {
    const ERROR_CODE: &'static str = "P1003";

    open spec fn message_spec(&self) -> Seq<char> {
        "Database `"@ + self.database_name@ + "` does not exist"@
    }

    fn message(&self) -> (m: String) {
        let mut m = String::from_str("Database `");
        m.append(self.database_name.as_str());
        m.append("` does not exist");
        m
    }
}

/// P1008: a query did not get an answer within the configured timeout.
#[derive(Debug)]
pub struct DatabaseOperationTimeout {
    /// Extra hint
    pub extra_hint: String,
}

impl UserFacingError for DatabaseOperationTimeout {
    const ERROR_CODE: &'static str = "P1008";

    open spec fn message_spec(&self) -> Seq<char> {
        "Socket timeout (the database failed to respond to a query within the configured timeout"@
            + self.extra_hint@ + ")."@
    }

    fn message(&self) -> (m: String) {
        let mut m = String::from_str(
            "Socket timeout (the database failed to respond to a query within the configured timeout",
        );
        m.append(self.extra_hint.as_str());
        m.append(").");
        m
    }
}

/// P1009: the database to create exists already.
#[derive(Debug)]
pub struct DatabaseAlreadyExists {
    /// Database name, append `database_schema_name` when applicable
    /// `database_schema_name`: Database schema name (For Postgres for example)
    pub database_name: String,
}

impl UserFacingError for DatabaseAlreadyExists {
    const ERROR_CODE: &'static str = "P1009";

    open spec fn message_spec(&self) -> Seq<char> {
        "Database `"@ + self.database_name@ + "` already exists on the database server"@
    }

    fn message(&self) -> (m: String) {
        let mut m = String::from_str("Database `");
        m.append(self.database_name.as_str());
        m.append("` already exists on the database server");
        m
    }
}

/// P1010: the user may not access the database.
#[derive(Debug)]
pub struct DatabaseAccessDenied {
    /// Database name, append `database_schema_name` when applicable
    /// `database_schema_name`: Database schema name (For Postgres for example)
    pub database_name: String,
}

impl UserFacingError for DatabaseAccessDenied {
    const ERROR_CODE: &'static str = "P1010";

    open spec fn message_spec(&self) -> Seq<char> {
        "User was denied access on the database `"@ + self.database_name@ + "`"@
    }

    fn message(&self) -> (m: String) {
        let mut m = String::from_str("User was denied access on the database `");
        m.append(self.database_name.as_str());
        m.append("`");
        m
    }
}

/// P1011: a TLS connection could not be opened.
#[derive(Debug)]
pub struct TlsConnectionError {
    pub message: String,
}

impl UserFacingError for TlsConnectionError {
    const ERROR_CODE: &'static str = "P1011";

    open spec fn message_spec(&self) -> Seq<char> {
        "Error opening a TLS connection: "@ + self.message@
    }

    fn message(&self) -> (m: String) {
        let mut m = String::from_str("Error opening a TLS connection: ");
        m.append(self.message.as_str());
        m
    }
}

/// P1012: the schema did not parse; the message is the parser's report.
#[derive(Debug)]
pub struct SchemaParserError {
    pub full_error: String,
}

impl UserFacingError for SchemaParserError {
    const ERROR_CODE: &'static str = "P1012";

    open spec fn message_spec(&self) -> Seq<char> {
        self.full_error@
    }

    fn message(&self) -> (m: String) {
        String::from_str(self.full_error.as_str())
    }
}

/// P1013: the connection string is invalid.
#[derive(Debug)]
pub struct InvalidConnectionString {
    pub details: String,
}

impl UserFacingError for InvalidConnectionString {
    const ERROR_CODE: &'static str = "P1013";

    open spec fn message_spec(&self) -> Seq<char> {
        "The provided database string is invalid. "@ + self.details@
    }

    fn message(&self) -> (m: String) {
        let mut m = String::from_str("The provided database string is invalid. ");
        m.append(self.details.as_str());
        m
    }
}

/// What kind of database object a model is stored in.
#[derive(Debug, Clone, Copy, PartialEq, Eq, Structural)]
pub enum ModelKind {
    Table,
}

impl ModelKind {
    /// How the kind is written in messages.
    pub open spec fn text(self) -> Seq<char> {
        match self {
            ModelKind::Table => seq!['t', 'a', 'b', 'l', 'e'],
        }
    }

    /// How the kind is written in messages: `table`.
    pub fn to_string(&self) -> (s: String)
        ensures
            s@ == self.text(),
    {
        match self {
            ModelKind::Table => {
                proof {
                    reveal_strlit("table");
                }
                String::from_str("table")
            },
        }
    }
}

/// P1014: the object that stores a model does not exist.
#[derive(Debug)]
pub struct InvalidModel {
    pub model: String,
    pub kind: ModelKind,
}

impl UserFacingError for InvalidModel {
    const ERROR_CODE: &'static str = "P1014";

    open spec fn message_spec(&self) -> Seq<char> {
        "The underlying "@ + self.kind.text() + " for model `"@ + self.model@
            + "` does not exist."@
    }

    fn message(&self) -> (m: String) {
        let mut m = String::from_str("The underlying ");
        let kind = self.kind.to_string();
        m.append(kind.as_str());
        m.append(" for model `");
        m.append(self.model.as_str());
        m.append("` does not exist.");
        m
    }
}

/// P1015: the schema uses features that the database version lacks.
#[derive(Debug)]
pub struct DatabaseVersionIncompatibility {
    pub database_version: String,
    pub errors: String,
}

impl UserFacingError for DatabaseVersionIncompatibility {
    const ERROR_CODE: &'static str = "P1015";

    open spec fn message_spec(&self) -> Seq<char> {
        "Your Prisma schema is using features that are not supported for the version of the database.\nDatabase version: "@
            + self.database_version@ + "\nErrors:\n"@ + self.errors@
    }

    fn message(&self) -> (m: String) {
        let mut m = String::from_str(
            "Your Prisma schema is using features that are not supported for the version of the database.\nDatabase version: ",
        );
        m.append(self.database_version.as_str());
        m.append("\nErrors:\n");
        m.append(self.errors.as_str());
        m
    }
}

/// P1016: a raw query got a wrong number of parameters.
#[derive(Debug)]
pub struct IncorrectNumberOfParameters {
    pub expected: usize,
    pub actual: usize,
}

impl UserFacingError for IncorrectNumberOfParameters {
    const ERROR_CODE: &'static str = "P1016";

    open spec fn message_spec(&self) -> Seq<char> {
        "Your raw query had an incorrect number of parameters. Expected: `"@ + decimal(
            self.expected as nat,
        ) + "`, actual: `"@ + decimal(self.actual as nat) + "`."@
    }

    fn message(&self) -> (m: String) {
        let mut m = String::from_str(
            "Your raw query had an incorrect number of parameters. Expected: `",
        );
        push_decimal(&mut m, self.expected);
        m.append("`, actual: `");
        push_decimal(&mut m, self.actual);
        m.append("`.");
        m
    }
}

/// P1017: the server closed the connection.
#[derive(Debug)]
pub struct ConnectionClosed;

impl SimpleUserFacingError for ConnectionClosed {
    const ERROR_CODE: &'static str = "P1017";

    const MESSAGE: &'static str = "Server has closed the connection.";
}

/// P1018: the transaction was closed already; the message says how.
#[derive(Debug)]
pub struct TransactionAlreadyClosed {
    pub message: String,
}

impl UserFacingError for TransactionAlreadyClosed {
    const ERROR_CODE: &'static str = "P1018";

    open spec fn message_spec(&self) -> Seq<char> {
        self.message@
    }

    fn message(&self) -> (m: String) {
        String::from_str(self.message.as_str())
    }
}

/// P1019: a feature is not supported; the message says which.
#[derive(Debug)]
pub struct UnsupportedFeatureError {
    pub message: String,
}

impl UserFacingError for UnsupportedFeatureError {
    const ERROR_CODE: &'static str = "P1019";

    open spec fn message_spec(&self) -> Seq<char> {
        self.message@
    }

    fn message(&self) -> (m: String) {
        String::from_str(self.message.as_str())
    }
}

} // verus!
