# prisma_engines

Verified pieces of a database toolkit:

- `src/user_facing.rs`: user-facing errors, each with its stable code and a
  message whose exact text is stated in its contract (numbers are written in
  decimal by a verified routine).
- `src/parse_arguments.rs`: turning the parse tree of an attribute's argument
  list into named, unnamed and value-less arguments and the trailing comma.
- `src/mysql.rs`: the MySQL connector's decisions: reading a database URL's
  outcome into a connector error, and whether a new connection selects the
  `mysql` database (not when the URL names one, not on Vitess).
- `src/mongodb.rs`: the MongoDB schema connector's fixed answers and errors.
- `app/`: serializable copies of the user-facing errors (serde derives).
