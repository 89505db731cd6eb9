//! Layout of the data directory: databases, configuration, secrets, backups,
//! migrations and uploads.
use vstd::prelude::*;

verus! {

/// `base` with the relative path `rel` appended, as `PathBuf::join` does on Unix:
/// a separator is inserted unless `base` is empty or already ends with one.
pub open spec fn path_join(base: Seq<char>, rel: Seq<char>) -> Seq<char> {
    if base.len() > 0 && base.last() != '/' {
        base + "/"@ + rel
    } else {
        base + rel
    }
}

/// Appends the relative path `rel` to `base` (`PathBuf::join` for relative paths).
pub fn join_path(base: &str, rel: &str) -> (r: String)
    requires
        rel@.len() > 0 ==> rel@[0] != '/',
    ensures
        r@ == path_join(base@, rel@),
{
    let mut r = String::from_str(base);
    let n = base.unicode_len();
    if n > 0 && base.get_char(n - 1) != '/' {
        r.append("/");
    }
    r.append(rel);
    r
}

/// The base data directory where the databases, configuration, etc. are stored.
#[derive(Debug, Clone)]
pub struct DataDir(pub String);

pub open spec fn data_path_of(root: Seq<char>) -> Seq<char> {
    path_join(root, "data/"@)
}

pub open spec fn secrets_path_of(root: Seq<char>) -> Seq<char> {
    path_join(root, "secrets/"@)
}

impl DataDir {
    pub const DEFAULT: &'static str = "traildepot";

    /// `./traildepot/`.
    pub fn default() -> (r: DataDir)
        ensures
            r.0@ == "./traildepot/"@,
    {
        DataDir(String::from_str("./traildepot/"))
    }

    pub fn root(&self) -> (r: &String)
        ensures
            r@ == self.0@,
    {
        &self.0
    }

    pub fn data_path(&self) -> (r: String)
        ensures
            r@ == data_path_of(self.0@),
    {
        proof {
            reveal_strlit("data/");
        }
        join_path(self.0.as_str(), "data/")
    }

    pub fn main_db_path(&self) -> (r: String)
        ensures
            r@ == path_join(data_path_of(self.0@), "main.db"@),
    {
        proof {
            reveal_strlit("main.db");
        }
        let data = self.data_path();
        join_path(data.as_str(), "main.db")
    }

    pub fn logs_db_path(&self) -> (r: String)
        ensures
            r@ == path_join(data_path_of(self.0@), "logs.db"@),
    {
        proof {
            reveal_strlit("logs.db");
        }
        let data = self.data_path();
        join_path(data.as_str(), "logs.db")
    }

    /// The configuration lives directly in the root.
    pub fn config_path(&self) -> (r: String)
        ensures
            r@ == self.0@,
    {
        String::from_str(self.0.as_str())
    }

    pub fn secrets_path(&self) -> (r: String)
        ensures
            r@ == secrets_path_of(self.0@),
    {
        proof {
            reveal_strlit("secrets/");
        }
        join_path(self.0.as_str(), "secrets/")
    }

    pub fn backup_path(&self) -> (r: String)
        ensures
            r@ == path_join(self.0@, "backups/"@),
    {
        proof {
            reveal_strlit("backups/");
        }
        join_path(self.0.as_str(), "backups/")
    }

    pub fn migrations_path(&self) -> (r: String)
        ensures
            r@ == path_join(self.0@, "migrations/"@),
    {
        proof {
            reveal_strlit("migrations/");
        }
        join_path(self.0.as_str(), "migrations/")
    }

    pub fn uploads_path(&self) -> (r: String)
        ensures
            r@ == path_join(self.0@, "uploads/"@),
    {
        proof {
            reveal_strlit("uploads/");
        }
        join_path(self.0.as_str(), "uploads/")
    }

    pub fn key_path(&self) -> (r: String)
        ensures
            r@ == path_join(secrets_path_of(self.0@), "keys/"@),
    {
        proof {
            reveal_strlit("keys/");
        }
        let secrets = self.secrets_path();
        join_path(secrets.as_str(), "keys/")
    }

    /// The directories that must exist under the root, in creation order.
    pub fn directories(&self) -> (r: Vec<String>)
        ensures
            r@.len() == 6,
            r@[0]@ == data_path_of(self.0@),
            r@[1]@ == self.0@,
            r@[2]@ == path_join(self.0@, "backups/"@),
            r@[3]@ == path_join(self.0@, "migrations/"@),
            r@[4]@ == path_join(self.0@, "uploads/"@),
            r@[5]@ == path_join(secrets_path_of(self.0@), "keys/"@),
    {
        let mut r: Vec<String> = Vec::new();
        r.push(self.data_path());
        r.push(self.config_path());
        r.push(self.backup_path());
        r.push(self.migrations_path());
        r.push(self.uploads_path());
        r.push(self.key_path());
        r
    }
}

/// Every path of the layout lies inside the root directory: the root is a prefix of it.
pub proof fn lemma_paths_under_root(root: Seq<char>, rel: Seq<char>)
    ensures
        path_join(root, rel).take(root.len() as int) == root,
        path_join(path_join(root, rel), "keys/"@).take(root.len() as int) == root,
{
    assert(path_join(root, rel).take(root.len() as int) =~= root);
    let p = path_join(root, rel);
    assert(path_join(p, "keys/"@).take(p.len() as int) =~= p);
    assert(path_join(p, "keys/"@).take(root.len() as int) =~= p.take(root.len() as int));
}

} // verus!
