//! Where the database file lives: an explicit override path wins;
//! otherwise a `did` folder under the platform data directory (or under
//! the current directory when no data directory is known) holds
//! `did.db`.

use vstd::prelude::*;

verus! {

/// The resolved storage location: the directory to create first, if
/// any, and the database file path.
pub struct DbLocation {
    /// `Some(dir)` when `dir` must be created before opening the file;
    /// an explicit override path is used as given, with no directory
    /// made for it.
    pub create_dir: Option<String>,
    /// The database file path.
    pub db_file: String,
}

/// Resolve the storage path. `override_path` is the explicit override
/// (the environment variable's value, when set); `data_dir` is the
/// platform user-data directory, when known.
pub fn resolve_db_path(override_path: Option<String>, data_dir: Option<String>) -> (r: DbLocation)
    ensures
        override_path matches Some(p) ==> r.create_dir is None && r.db_file@ == p@,
        override_path is None ==> match r.create_dir {
            Some(dir) => dir@ == base_chars(data_dir) + "/did"@ && r.db_file@ == base_chars(data_dir) + "/did/did.db"@,
            None => false,
        },
{
    match override_path {
        Some(p) => DbLocation { create_dir: None, db_file: p },
        None => {
            let mut dir = match &data_dir {
                Some(d) => d.clone(),
                None => String::from_str("."),
            };
            proof {
                reveal_strlit(".");
            }
            dir.append("/did");
            let mut file = dir.clone();
            file.append("/did.db");
            proof {
                reveal_strlit("/did");
                reveal_strlit("/did.db");
                reveal_strlit("/did/did.db");
                assert(dir@ =~= base_chars(data_dir) + "/did"@);
                assert(file@ =~= base_chars(data_dir) + "/did/did.db"@);
            }
            DbLocation { create_dir: Some(dir), db_file: file }
        },
    }
}

/// The base directory the `did` folder goes under.
pub open spec fn base_chars(data_dir: Option<String>) -> Seq<char> {
    match data_dir {
        Some(d) => d@,
        None => "."@,
    }
}

} // verus!
