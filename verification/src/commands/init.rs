use crate::text::texts;
use vstd::prelude::*;
use vstd::string::*;

verus! {

/// What creating the layout did.
#[derive(Debug)]
pub struct InitReport {
    /// The folders that were created, in the order of their creation.
    pub created: Vec<String>,
}

/// Decides what is done about one required folder: one that is `present` is left
/// alone, any other is to be created by the caller and is recorded in
/// `created`. Returns whether the folder is to be created.
pub fn ensure_dir(path: &str, present: bool, created: &mut Vec<String>) -> (create: bool)
    ensures
        create == !present,
        texts(final(created)@) == if present {
            texts(old(created)@)
        } else {
            texts(old(created)@) + seq![path@]
        },
{
    if present {
        return false;
    }
    created.push(String::from_str(path));
    true
}

/// What is reported when a folder cannot be created.
pub fn creation_failure_message(path: &str) -> (r: String)
    ensures
        r@ == "failed to create directory: "@ + path@,
{
    let mut out = String::from_str("failed to create directory: ");
    out.append(path);
    out
}

/// What is reported when the root of an area cannot be ensured.
pub fn root_failure_message(area_name: &str) -> (r: String)
    ensures
        r@ == "failed ensuring root for area "@ + area_name@,
{
    let mut out = String::from_str("failed ensuring root for area ");
    out.append(area_name);
    out
}

} // verus!
