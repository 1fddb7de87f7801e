//! Locations of the vendor's example banks below the SDK root.

use vstd::prelude::*;
use vstd::string::*;

verus! {

/// The environment variable that holds the SDK root.
pub const SDK_DIR_VARIABLE: &'static str = "FMOD_SDK_DIR";

/// What a caller is told when the SDK root has not been configured.
pub open spec fn sdk_dir_unset_message() -> Seq<char> {
    "FMOD_SDK_DIR environment variable not set. Please set it to your FMOD SDK path."@
}

/// The directory of the example banks below an SDK root.
pub open spec fn banks_dir_under(sdk_dir: Seq<char>) -> Seq<char> {
    sdk_dir + "/api/studio/examples/media"@
}

/// The path of the bank file `bank_name` below an SDK root.
pub open spec fn bank_path_under(sdk_dir: Seq<char>, bank_name: Seq<char>) -> Seq<char> {
    banks_dir_under(sdk_dir) + "/"@ + bank_name
}

/// The SDK root, given the value of the variable that configures it.
pub fn get_fmod_sdk_dir(configured: Option<String>) -> (dir: Result<String, String>)
    ensures
        match configured {
            Some(value) => dir == Ok::<String, String>(value),
            None => dir is Err && dir->Err_0@ == sdk_dir_unset_message(),
        },
{
    match configured {
        Some(value) => Ok(value),
        None => Err(
            String::from_str(
                "FMOD_SDK_DIR environment variable not set. Please set it to your FMOD SDK path.",
            ),
        ),
    }
}

/// The directory that holds the example banks.
pub fn get_example_banks_dir(configured: Option<String>) -> (dir: Result<String, String>)
    ensures
        match configured {
            Some(value) => dir is Ok && dir->Ok_0@ == banks_dir_under(value@),
            None => dir is Err && dir->Err_0@ == sdk_dir_unset_message(),
        },
{
    match get_fmod_sdk_dir(configured) {
        Ok(sdk_dir) => Ok(sdk_dir.concat("/api/studio/examples/media")),
        Err(message) => Err(message),
    }
}

/// The path of one example bank file.
pub fn get_example_bank_path(configured: Option<String>, bank_name: &str) -> (path: Result<
    String,
    String,
>)
    ensures
        match configured {
            Some(value) => path is Ok && path->Ok_0@ == bank_path_under(value@, bank_name@),
            None => path is Err && path->Err_0@ == sdk_dir_unset_message(),
        },
{
    match get_example_banks_dir(configured) {
        Ok(banks_dir) => Ok(banks_dir.concat("/").concat(bank_name)),
        Err(message) => Err(message),
    }
}

/// Every bank file lies in the directory of the example banks, which lies
/// below the SDK root.
pub proof fn lemma_bank_path_lies_in_banks_dir(sdk_dir: Seq<char>, bank_name: Seq<char>)
    ensures
        sdk_dir.is_prefix_of(banks_dir_under(sdk_dir)),
        banks_dir_under(sdk_dir).is_prefix_of(bank_path_under(sdk_dir, bank_name)),
{
    let dir = banks_dir_under(sdk_dir);
    let path = bank_path_under(sdk_dir, bank_name);
    assert(dir.subrange(0, sdk_dir.len() as int) =~= sdk_dir);
    assert(path.subrange(0, dir.len() as int) =~= dir);
}

/// Below one SDK root, different bank files have different paths.
pub proof fn lemma_bank_path_tells_the_bank(sdk_dir: Seq<char>, a: Seq<char>, b: Seq<char>)
    requires
        bank_path_under(sdk_dir, a) == bank_path_under(sdk_dir, b),
    ensures
        a == b,
{
    let stem = banks_dir_under(sdk_dir) + "/"@;
    assert((stem + a).subrange(stem.len() as int, (stem + a).len() as int) =~= a);
    assert((stem + b).subrange(stem.len() as int, (stem + b).len() as int) =~= b);
}

} // verus!
