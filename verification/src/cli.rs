use vstd::prelude::*;

use std::path::PathBuf;

verus! {

#[verifier::external_type_specification]
#[verifier::external_body]
pub struct ExPathBuf(PathBuf);

/// How the report authenticates against the database, as given on the
/// command line.
#[derive(Debug)]
pub enum ArgAuthType {
    /// Use a token of the Azure command line tools.
    UseAzCliToken,
    /// Read the connection string from the given file.
    UseConnectionString(PathBuf),
}

/// The command line arguments of a report run.
#[derive(Debug)]
pub struct CliArgs {
    pub sql_file: PathBuf,
    pub filters_file: Option<PathBuf>,
    pub auth: ArgAuthType,
}

pub open spec fn msg_sql_file_required() -> Seq<char> {
    "The report's source query file is required"@
}

pub open spec fn msg_connection_string_required() -> Seq<char> {
    "The connection string is required"@
}

impl CliArgs {
    /// Builds the arguments of a run from the values found on the command
    /// line: the query file (`--sql-file`), the filters file (`--filters`),
    /// the `--auth-az-cli-tokens` flag and the connection string file
    /// (`--auth-connection-string`). The flag wins over a connection string.
    pub fn read_and_validate_args(
        sql_file: Option<PathBuf>,
        filters_file: Option<PathBuf>,
        auth_az_cli_tokens: bool,
        auth_connection_string: Option<PathBuf>,
    ) -> (res: Result<Self, String>)
        ensures
            match sql_file {
                None => res matches Err(m) && m@ == msg_sql_file_required(),
                Some(sql) => {
                    if auth_az_cli_tokens {
                        res == Ok::<CliArgs, String>(
                            CliArgs { sql_file: sql, filters_file, auth: ArgAuthType::UseAzCliToken },
                        )
                    } else {
                        match auth_connection_string {
                            None => res matches Err(m) && m@ == msg_connection_string_required(),
                            Some(conn) => res == Ok::<CliArgs, String>(
                                CliArgs {
                                    sql_file: sql,
                                    filters_file,
                                    auth: ArgAuthType::UseConnectionString(conn),
                                },
                            ),
                        }
                    }
                },
            },
    {
        let sql_file = match sql_file {
            Some(path) => path,
            None => {
                return Err(String::from_str("The report's source query file is required"));
            },
        };
        let auth: ArgAuthType;
        if auth_az_cli_tokens {
            auth = ArgAuthType::UseAzCliToken;
        } else {
            let conn_string = match auth_connection_string {
                Some(path) => path,
                None => {
                    return Err(String::from_str("The connection string is required"));
                },
            };
            auth = ArgAuthType::UseConnectionString(conn_string);
        }
        Ok(CliArgs { sql_file: sql_file, filters_file: filters_file, auth: auth })
    }
}

} // verus!
