//! Postgres backend configuration and the exact invocations built from it.

use vstd::prelude::*;
use vstd::string::StringExecFns;

verus! {

/// How much of the origin database a backup covers.
pub enum BackupType {
    Schema,
    Full,
}

impl Default for BackupType {
    /// A backup covers the full database unless configured otherwise.
    fn default() -> (r: Self)
        ensures
            r == BackupType::Full,
    {
        BackupType::Full
    }
}

/// Connection parameters for the origin and target endpoints of one
/// replication run, together with the run-wide switches.
pub struct Postgres {
    /// Whether this backend takes part in the run at all.
    pub enabled: bool,

    pub origin_host: String,
    pub origin_user: String,
    pub origin_password: String,
    pub origin_port: String,
    pub origin_database: String,

    pub target_host: String,
    pub target_user: String,
    pub target_password: String,
    pub target_port: String,
    pub target_database: String,

    /// How much of the origin database a dump covers.
    pub backup_type: BackupType,

    /// Whether a report is mailed after the run.
    pub email: bool,
}

/// The text of a connection string for the given endpoint parameters.
pub open spec fn conn_string_view(
    host: Seq<char>,
    user: Seq<char>,
    password: Seq<char>,
    port: Seq<char>,
) -> Seq<char> {
    "host="@ + host + " user="@ + user + " password="@ + password + " port="@ + port
}

impl Postgres {
    /// Default for the `enabled` field when the configuration omits it.
    pub fn default_enabled() -> (b: bool)
        ensures
            b,
    {
        true
    }

    /// Default for the `email` field when the configuration omits it.
    pub fn default_email() -> (b: bool)
        ensures
            !b,
    {
        false
    }

    /// The connection string used to verify the origin endpoint.
    pub fn origin_conn_string(&self) -> (s: String)
        ensures
            s@ == conn_string_view(
                self.origin_host@,
                self.origin_user@,
                self.origin_password@,
                self.origin_port@,
            ),
    {
        let mut s = String::from_str("host=");
        s.append(self.origin_host.as_str());
        s.append(" user=");
        s.append(self.origin_user.as_str());
        s.append(" password=");
        s.append(self.origin_password.as_str());
        s.append(" port=");
        s.append(self.origin_port.as_str());
        s
    }

    /// The connection string used to verify the target endpoint.
    pub fn target_conn_string(&self) -> (s: String)
        ensures
            s@ == conn_string_view(
                self.target_host@,
                self.target_user@,
                self.target_password@,
                self.target_port@,
            ),
    {
        let mut s = String::from_str("host=");
        s.append(self.target_host.as_str());
        s.append(" user=");
        s.append(self.target_user.as_str());
        s.append(" password=");
        s.append(self.target_password.as_str());
        s.append(" port=");
        s.append(self.target_port.as_str());
        s
    }

    /// The argument list for the external dump utility, run against the
    /// origin endpoint and writing the artifact to `out_path`.
    ///
    /// The password is deliberately absent: it travels to the child
    /// process in an environment variable, never on the command line.
    pub fn dump_args(&self, out_path: &str) -> (args: Vec<String>)
        ensures
            args@.len() == 11,
            args@[0]@ == "-U"@,
            args@[1]@ == self.origin_user@,
            args@[2]@ == "-h"@,
            args@[3]@ == self.origin_host@,
            args@[4]@ == "-p"@,
            args@[5]@ == self.origin_port@,
            args@[6]@ == self.origin_database@,
            args@[7]@ == "-v"@,
            args@[8]@ == "--clean"@,
            args@[9]@ == "-f"@,
            args@[10]@ == out_path@,
    {
        let mut args: Vec<String> = Vec::new();
        args.push(String::from_str("-U"));
        args.push(self.origin_user.clone());
        args.push(String::from_str("-h"));
        args.push(self.origin_host.clone());
        args.push(String::from_str("-p"));
        args.push(self.origin_port.clone());
        args.push(self.origin_database.clone());
        args.push(String::from_str("-v"));
        args.push(String::from_str("--clean"));
        args.push(String::from_str("-f"));
        args.push(String::from_str(out_path));
        args
    }

    /// The argument list for the external restore utility, run against the
    /// target endpoint and reading the artifact from `in_path`.
    ///
    /// The restored database keeps the origin's database name on the
    /// target server; the configured target database name is informational
    /// only. The password again travels in an environment variable.
    pub fn restore_args(&self, in_path: &str) -> (args: Vec<String>)
        ensures
            args@.len() == 10,
            args@[0]@ == "-h"@,
            args@[1]@ == self.target_host@,
            args@[2]@ == "-p"@,
            args@[3]@ == self.target_port@,
            args@[4]@ == "-U"@,
            args@[5]@ == self.target_user@,
            args@[6]@ == "-d"@,
            args@[7]@ == self.origin_database@,
            args@[8]@ == "-f"@,
            args@[9]@ == in_path@,
    {
        let mut args: Vec<String> = Vec::new();
        args.push(String::from_str("-h"));
        args.push(self.target_host.clone());
        args.push(String::from_str("-p"));
        args.push(self.target_port.clone());
        args.push(String::from_str("-U"));
        args.push(self.target_user.clone());
        args.push(String::from_str("-d"));
        args.push(self.origin_database.clone());
        args.push(String::from_str("-f"));
        args.push(String::from_str(in_path));
        args
    }
}

} // verus!
