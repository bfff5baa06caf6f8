use vstd::prelude::*;
use vstd::string::StringExecFns;

verus! {

/// The message reported when no entry matches the requested name.
pub open spec fn missing_file_msg(name: Seq<char>) -> Seq<char> {
    "No File present by the name of <"@ + name + "> in the current directory...!"@
}

/// Relies on walkdir::WalkDir: walking `root` yields the root entry first and
/// then, recursively, every entry below it. Each readable entry is handed back
/// as its full path and its file name, in traversal order; entries the walk
/// could not read are left out. The result depends on the filesystem at the
/// moment of the call, so nothing is promised of it.
#[verifier::external_body]
fn walk_entries(root: &str) -> (entries: Vec<(String, String)>) {
    let mut out: Vec<(String, String)> = Vec::new();
    for entry in walkdir::WalkDir::new(root) {
        if let Ok(e) = entry {
            let path = e.path().display().to_string();
            let name = e.file_name().to_string_lossy().to_string();
            out.push((path, name));
        }
    }
    out
}

/// The path of the first entry whose file name equals `name`, if any. Each
/// entry is a pair of full path and file name.
pub open spec fn spec_first_match(entries: Seq<(String, String)>, name: Seq<char>) -> Option<
    Seq<char>,
>
    decreases entries.len(),
{
    if entries.len() == 0 {
        None
    } else if entries[0].1@ == name {
        Some(entries[0].0@)
    } else {
        spec_first_match(entries.drop_first(), name)
    }
}

/// Law: a traversal resolves exactly when some entry carries the requested
/// name, and what it resolves to is the first such entry's path.
pub proof fn lemma_first_match_characterized(entries: Seq<(String, String)>, name: Seq<char>)
    ensures
        (spec_first_match(entries, name) is Some) <==> (exists|i: int|
            0 <= i < entries.len() && entries[i].1@ == name),
        spec_first_match(entries, name) matches Some(p) ==> exists|i: int|
            {
                &&& 0 <= i < entries.len()
                &&& entries[i].1@ == name
                &&& entries[i].0@ == p
                &&& forall|j: int| 0 <= j < i ==> entries[j].1@ != name
            },
    decreases entries.len(),
{
    if entries.len() > 0 {
        lemma_first_match_characterized(entries.drop_first(), name);
        if entries[0].1@ == name {
            assert(entries[0].1@ == name);
        } else {
            if spec_first_match(entries.drop_first(), name) is Some {
                let p = spec_first_match(entries.drop_first(), name)->Some_0;
                let i = choose|i: int|
                    {
                        &&& 0 <= i < entries.drop_first().len()
                        &&& entries.drop_first()[i].1@ == name
                        &&& entries.drop_first()[i].0@ == p
                        &&& forall|j: int| 0 <= j < i ==> entries.drop_first()[j].1@ != name
                    };
                assert(entries[i + 1].1@ == name && entries[i + 1].0@ == p);
                assert forall|j: int| 0 <= j < i + 1 implies entries[j].1@ != name by {
                    if j > 0 {
                        assert(entries.drop_first()[j - 1] == entries[j]);
                    }
                }
            } else {
                assert forall|i: int| 0 <= i < entries.len() implies entries[i].1@ != name by {
                    if i > 0 {
                        assert(entries.drop_first()[i - 1] == entries[i]);
                    }
                }
            }
        }
    }
}

/// Picks out of a traversal's entries the path of the first one whose file
/// name equals `name`.
pub fn find_match(entries: &Vec<(String, String)>, name: &String) -> (r: Option<String>)
    ensures
        r matches Some(p) ==> spec_first_match(entries@, name@) == Some(p@),
        r is None ==> spec_first_match(entries@, name@) is None,
{
    let n = entries.len();
    let mut i: usize = 0;
    proof {
        assert(entries@.skip(0) =~= entries@);
    }
    while i < n
        invariant
            0 <= i <= n,
            n == entries@.len(),
            spec_first_match(entries@, name@) == spec_first_match(entries@.skip(i as int), name@),
        decreases n - i,
    {
        proof {
            assert(entries@.skip(i as int)[0] == entries@[i as int]);
            assert(entries@.skip(i as int).drop_first() =~= entries@.skip(i as int + 1));
        }
        if entries[i].1 == *name {
            return Some(entries[i].0.clone());
        }
        i = i + 1;
    }
    proof {
        assert(entries@.skip(n as int) =~= Seq::<(String, String)>::empty());
    }
    None
}

/// Searches the tree under `root` for an entry named `file_name` and returns
/// the first match's full path. What the traversal yields depends on the
/// filesystem, so the result is pinned down only relative to that traversal.
pub fn find_file_in(root: &String, file_name: &String) -> (r: Option<String>) {
    let entries = walk_entries(root.as_str());
    find_match(&entries, file_name)
}

/// Searches the working directory tree for an entry named `file_name` and
/// returns the first match's full path.
pub fn find_file_path(file_name: &String) -> (r: Option<String>) {
    let here = String::from_str(".");
    find_file_in(&here, file_name)
}

/// Turns a traversal's entries into the answer of existence validation: `Ok`
/// exactly when some entry carries the requested name, and the fixed missing
/// file message otherwise.
pub fn existence_from(entries: &Vec<(String, String)>, file_name: &String) -> (r: Result<
    (),
    String,
>)
    ensures
        r is Ok <==> spec_first_match(entries@, file_name@) is Some,
        r matches Err(m) ==> m@ == missing_file_msg(file_name@),
{
    match find_match(entries, file_name) {
        Some(_) => Ok(()),
        None => {
            let mut m = String::from_str("No File present by the name of <");
            m.append(file_name.as_str());
            m.append("> in the current directory...!");
            Err(m)
        },
    }
}

/// Validates that an entry named `file_name` exists under `root`; the identical
/// traversal as path resolution, judged only on whether any entry matched.
pub fn validate_existence_in(root: &String, file_name: &String) -> (r: Result<(), String>)
    ensures
        r matches Err(m) ==> m@ == missing_file_msg(file_name@),
{
    let entries = walk_entries(root.as_str());
    existence_from(&entries, file_name)
}

/// Validates that an entry named `file_name` exists somewhere under the
/// working directory.
pub fn validate_file_existence(file_name: String) -> (r: Result<(), String>)
    ensures
        r matches Err(m) ==> m@ == missing_file_msg(file_name@),
{
    let here = String::from_str(".");
    validate_existence_in(&here, &file_name)
}

} // verus!
