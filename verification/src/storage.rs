//! Where the document of a task list is kept, and what a new one holds.
//!
//! Nothing here touches the file system: these functions work out names and
//! contents, and the program around the library reads and writes.

use vstd::prelude::*;
use vstd::string::*;

verus! {

/// A path with one more component: the separator `/` stands between the two,
/// unless the path is empty or ends in one already.
pub open spec fn joined(path: Seq<char>, component: Seq<char>) -> Seq<char> {
    if path.len() == 0 || path.last() == '/' {
        path + component
    } else {
        path + seq!['/'] + component
    }
}

/// The directory of the application's data below a home directory.
pub open spec fn app_directory(home: Seq<char>) -> Seq<char> {
    joined(joined(joined(home, ".local"@), "share"@), "todo_app"@)
}

/// The path of the document below a home directory.
pub open spec fn file_path(home: Seq<char>) -> Seq<char> {
    joined(app_directory(home), "todo.json"@)
}

/// The document of a list without tasks, as it is written where none exists.
pub open spec fn default_document() -> Seq<char> {
    "{\"tasks\": [], \"next_id\": 1}"@
}

/// Appends a component to a path.
fn push_component(path: &mut String, component: &str)
    ensures
        final(path)@ == joined(old(path)@, component@),
{
    let n = path.as_str().unicode_len();
    if n > 0 && path.as_str().get_char(n - 1) != '/' {
        proof {
            reveal_strlit("/");
        }
        path.append("/");
        assert(path@ =~= old(path)@ + seq!['/']);
    }
    path.append(component);
}

/// The directory of the application's data: `.local/share/todo_app` below
/// the home directory `home`.
pub fn get_app_directory(home: &str) -> (r: String)
    ensures
        r@ == app_directory(home@),
{
    let mut path = home.to_owned();
    push_component(&mut path, ".local");
    push_component(&mut path, "share");
    push_component(&mut path, "todo_app");
    path
}

/// The path of the document: `todo.json` in the directory of the
/// application's data.
pub fn get_file_path(home: &str) -> (r: String)
    ensures
        r@ == file_path(home@),
{
    let mut path = get_app_directory(home);
    push_component(&mut path, "todo.json");
    path
}

/// What to write to the path of the document before it is first read: the
/// default document where no file exists there, and nothing where one does.
/// A file that exists is never written over, whatever it holds.
pub fn create_app_file(exists: bool) -> (r: Option<&'static str>)
    ensures
        match r {
            Some(text) => !exists && text@ == default_document(),
            None => exists,
        },
{
    if exists {
        None
    } else {
        Some("{\"tasks\": [], \"next_id\": 1}")
    }
}

} // verus!
