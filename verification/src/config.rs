//! Where the program keeps its data and where it listens.

use vstd::prelude::*;
use vstd::string::*;

verus! {

/// The program's settings.
pub struct Config {
    /// The directory that holds the database and the session key.
    pub data_dir: String,
    /// The address the server listens on, `host:port`.
    pub bind_addr: String,
}

/// `dir` joined with the relative path `name`, as `Path::join` does it on
/// Unix: a `/` goes between them unless `dir` is empty or already ends in one.
pub open spec fn spec_join(dir: Seq<char>, name: Seq<char>) -> Seq<char> {
    if dir.len() == 0 || dir.last() == '/' {
        dir + name
    } else {
        dir + "/"@ + name
    }
}

/// A joined path starts with the directory and ends with the name, with at
/// most one `/` added between them; joining onto the empty directory gives
/// the name itself, and a directory gives the same path with or without its
/// own trailing `/`.
pub proof fn lemma_join_shape(dir: Seq<char>, name: Seq<char>)
    ensures
        spec_join(dir, name).subrange(0, dir.len() as int) == dir,
        spec_join(dir, name).len() == dir.len() + name.len() || spec_join(dir, name).len()
            == dir.len() + name.len() + 1,
        spec_join(dir, name).subrange(
            spec_join(dir, name).len() - name.len(),
            spec_join(dir, name).len() as int,
        ) == name,
        spec_join(Seq::empty(), name) == name,
        dir.len() > 0 && dir.last() != '/' ==> spec_join(dir + "/"@, name) == spec_join(
            dir,
            name,
        ),
{
    reveal_strlit("/");
    let r = spec_join(dir, name);
    assert(r.subrange(0, dir.len() as int) =~= dir);
    assert(r.subrange(r.len() - name.len(), r.len() as int) =~= name);
    assert(Seq::<char>::empty() + name =~= name);
    if dir.len() > 0 && dir.last() != '/' {
        assert((dir + "/"@).last() == '/');
        assert(dir + "/"@ + name =~= dir + "/"@ + name);
    }
}

impl Config {
    /// The settings from the values of the `DATA_DIR` and `PORT` variables,
    /// `None` where a variable is unset: the data directory defaults to
    /// `./data`, the port to `3001`, and the server listens on all interfaces.
    pub fn from_settings(data_dir: Option<String>, port: Option<String>) -> (c: Config)
        ensures
            c.data_dir@ == (match data_dir {
                Some(d) => d@,
                None => "./data"@,
            }),
            c.bind_addr@ == "0.0.0.0:"@ + (match port {
                Some(p) => p@,
                None => "3001"@,
            }),
    {
        let data_dir = match data_dir {
            Some(d) => d,
            None => String::from_str("./data"),
        };
        let port = match port {
            Some(p) => p,
            None => String::from_str("3001"),
        };
        let mut bind_addr = String::from_str("0.0.0.0:");
        bind_addr.append(port.as_str());
        Config { data_dir, bind_addr }
    }

    /// The path of the database file inside the data directory.
    pub fn db_path(&self) -> (r: String)
        ensures
            r@ == spec_join(self.data_dir@, "vigilant-vole.db"@),
    {
        join_path(self.data_dir.as_str(), "vigilant-vole.db")
    }
}

/// Joins the relative path `name` onto the directory `dir`.
pub fn join_path(dir: &str, name: &str) -> (r: String)
    ensures
        r@ == spec_join(dir@, name@),
{
    let mut path = String::from_str(dir);
    let n = dir.unicode_len();
    if n != 0 && dir.get_char(n - 1) != '/' {
        path.append("/");
    }
    path.append(name);
    path
}

} // verus!
