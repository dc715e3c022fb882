# sql_report

A report runner reads a SQL script, its filters and how to connect to the
database, and refuses scripts that would change data.

- `src/` is the verified library (Verus):
  - `app/sql_statement.rs`: the statements of a script as plain values, and
    the call into `sqlparser` (SQL Server dialect) that produces them;
  - `app/sql_readonly_validator.rs`: which statements may run, the script
    check, its error messages, and the laws proved about them. Plain
    `SELECT`s, comments and writes to temporary `#tables` pass; a query
    whose body is not a plain `SELECT` (set operations, nested queries, a
    `WITH ... DELETE/UPDATE/INSERT`) passes without being looked into, and
    the laws state this exception;
  - `cli.rs`: the command line arguments of a run;
  - `context.rs`: the filters file rules and the input file checks.
- `app/` is the program around it: argument parsing with `clap`, file
  reading with `tokio`, JSON with `serde_json`, Azure CLI tokens.
- `tests/` runs the library on concrete scripts and values.
