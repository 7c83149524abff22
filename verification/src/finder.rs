use vstd::prelude::*;

verus! {

/// What kind of file system object a directory entry is.
#[derive(Clone, Copy, Debug, PartialEq, Eq, Structural)]
pub enum FileKind {
    Dir,
    File,
    /// Neither a directory nor a regular file (a symbolic link, a socket, ...).
    Other,
    /// The kind could not be read.
    Unknown,
}

/// An entry of a directory listing.
pub struct Entry {
    /// The entry's file name, when it is valid UTF-8.
    pub name: Option<String>,
    /// The entry's full path.
    pub path: String,
    pub kind: FileKind,
}

/// The path of a file named `name` in the directory `root`: the two joined
/// by a `/`.
pub open spec fn spec_joined_path(root: Seq<char>, name: Seq<char>) -> Seq<char> {
    root + seq!['/'] + name
}

/// The path of a file named `name` in the directory `root`, as the file
/// operations build it.
pub fn joined_path(root: &str, name: &str) -> (r: String)
    ensures
        r@ == spec_joined_path(root@, name@),
{
    let mut s = root.to_owned();
    s.append("/");
    proof {
        reveal_strlit("/");
    }
    s.append(name);
    s
}

/// The error of a file system operation, `std::io::Error`.
#[verifier::external_type_specification]
#[verifier::external_body]
pub struct ExIoError(std::io::Error);

/// Moving a file is not implemented: it does nothing and succeeds.
pub fn move_file(root: &str, name: String, new_name: String) -> (r: Result<(), std::io::Error>)
    ensures
        r is Ok,
{
    Ok(())
}

} // verus!
