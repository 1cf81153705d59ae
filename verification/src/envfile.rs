//! The environment file: a flat table of string keys and string values,
//! parsed from TOML text. Every pair of the file is added to the child
//! process's environment; a file that does not parse as such a table is a
//! hard startup error.

use vstd::prelude::*;

verus! {

/// The table an environment text parses to, when it parses as a flat table
/// of string keys and string values at all. The result depends on the text
/// alone.
pub uninterp spec fn env_file_map(s: Seq<char>) -> Option<Map<Seq<char>, Seq<char>>>;

/// Whether `ps` lists exactly the entries of `m`: every pair is an entry of
/// `m`, every key of `m` is listed, and no key is listed twice.
pub open spec fn pairs_match_map(ps: Seq<(String, String)>, m: Map<Seq<char>, Seq<char>>) -> bool {
    &&& forall|i: int|
        0 <= i < ps.len() ==> m.contains_key((#[trigger] ps[i]).0@) && m[ps[i].0@] == ps[i].1@
    &&& forall|k: Seq<char>|
        #[trigger] m.contains_key(k) ==> exists|i: int| 0 <= i < ps.len() && ps[i].0@ == k
    &&& forall|i: int, j: int|
        0 <= i < j < ps.len() ==> (#[trigger] ps[i]).0@ != (#[trigger] ps[j]).0@
}

/// Relies on toml::from_str deserializing the text as a table with a string
/// value for every key: whether it succeeds and which entries come out
/// depend on the text alone. The order the entries are handed out in does
/// not, and is left unstated.
#[verifier::external_body]
fn parse_env_text(s: &str) -> (r: Result<Vec<(String, String)>, String>)
    ensures
        r is Ok <==> env_file_map(s@) is Some,
        r matches Ok(v) ==> (env_file_map(s@) matches Some(m) && pairs_match_map(v@, m)),
{
    match toml::from_str::<std::collections::HashMap<String, String>>(s) {
        Ok(m) => Ok(m.into_iter().collect()),
        Err(e) => Err(e.to_string()),
    }
}

/// A malformed environment file, with the parser's message.
#[derive(Debug)]
pub struct EnvFileError {
    pub message: String,
}

/// Parses environment text into its key/value pairs. Returns the pairs of
/// the table the text denotes — each key once, in no fixed order — and an
/// error exactly when the text is not a flat table of string values.
pub fn parse_env_file(text: &str) -> (r: Result<Vec<(String, String)>, EnvFileError>)
    ensures
        r is Ok <==> env_file_map(text@) is Some,
        r matches Ok(v) ==> (env_file_map(text@) matches Some(m) && pairs_match_map(v@, m)),
{
    match parse_env_text(text) {
        Ok(v) => Ok(v),
        Err(message) => Err(EnvFileError { message }),
    }
}

} // verus!
