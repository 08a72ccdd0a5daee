//! Opening files and folders with the Windows shell, and emptying the
//! working folder: what to run, and the messages when it fails.
use vstd::prelude::*;

use crate::text::append_str;

verus! {

/// The command that opens a path: a program and its arguments.
pub struct OpenCommand {
    pub program: String,
    pub args: Vec<String>,
    /// The error when the program cannot be started.
    pub launch_error: String,
}

/// What opens `path`: Explorer for a folder; for a file, `cmd /c start ""`
/// (the empty title keeps paths with spaces whole). A path that does not
/// exist is refused.
pub open spec fn open_spec(exists: bool, is_dir: bool, path: Seq<char>) -> Result<
    (Seq<char>, Seq<Seq<char>>, Seq<char>),
    Seq<char>,
> {
    if !exists {
        Err("path does not exist: "@ + path)
    } else if is_dir {
        Ok(("explorer.exe"@, seq![path], "failed to launch explorer"@))
    } else {
        Ok(("cmd"@, seq!["/c"@, "start"@, ""@, path], "failed to open file"@))
    }
}

/// Chooses how to open `path`, from whether it exists and is a folder.
pub fn open_command(exists: bool, is_dir: bool, path: &str) -> (r: Result<OpenCommand, String>)
    ensures
        match open_spec(exists, is_dir, path@) {
            Ok((p, a, e)) => r matches Ok(c) && c.program@ == p && c.args@.map_values(
                |s: String| s@,
            ) == a && c.launch_error@ == e,
            Err(m) => r matches Err(x) && x@ == m,
        },
{
    if !exists {
        let mut s = "path does not exist: ".to_owned();
        append_str(&mut s, path);
        return Err(s);
    }
    if is_dir {
        let args = vec![path.to_owned()];
        assert(args@.map_values(|s: String| s@) =~= seq![path@]);
        Ok(
            OpenCommand {
                program: "explorer.exe".to_owned(),
                args,
                launch_error: "failed to launch explorer".to_owned(),
            },
        )
    } else {
        let args = vec!["/c".to_owned(), "start".to_owned(), "".to_owned(), path.to_owned()];
        assert(args@.map_values(|s: String| s@) =~= seq!["/c"@, "start"@, ""@, path@]);
        Ok(
            OpenCommand {
                program: "cmd".to_owned(),
                args,
                launch_error: "failed to open file".to_owned(),
            },
        )
    }
}

/// The error when an item inside the folder being emptied cannot be
/// removed.
pub fn delete_failed(path: &str) -> (r: String)
    ensures
        r@ == "failed to delete: "@ + path@,
{
    let mut s = "failed to delete: ".to_owned();
    append_str(&mut s, path);
    s
}

} // verus!
