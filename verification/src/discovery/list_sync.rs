//! Keeping the list of detectable applications up to date: the list is published together
//! with its SHA-256 hash, and is fetched only when the hash has changed.
use crate::service::installer::{installed_list_dir, INSTALL_DIR};
use crate::text;
use crate::text::{same_text, to_hex, trim};
use sha2::{Digest, Sha256};
use vstd::prelude::*;
use vstd::slice::slice_to_vec;
use vstd::string::*;

verus! {

/// Where the list is published.
pub const REMOTE_LIST_URL: &'static str = "https://raw.githubusercontent.com/PlusoneChiang/xbridge/main/xbridge-detectable-list.json";

/// Where the hash of the list is published.
pub const REMOTE_HASH_URL: &'static str = "https://raw.githubusercontent.com/PlusoneChiang/xbridge/main/xbridge-detectable-list.json.sha256";

/// The file that holds the list.
pub const LIST_FILE: &'static str = "xbridge-detectable-list.json";

/// The file that holds the hash of the list.
pub const HASH_FILE: &'static str = "xbridge-detectable-list.json.sha256";

/// The SHA-256 hash of bytes.
pub uninterp spec fn sha256(data: Seq<u8>) -> Seq<u8>;

/// `sha2::Sha256::digest`: the 32 bytes of the hash, a function of the data alone.
#[verifier::external_body]
fn digest(data: &[u8]) -> (r: Vec<u8>)
    ensures
        r@ == sha256(data@),
        r@.len() == 32,
{
    Sha256::digest(data).to_vec()
}

/// The SHA-256 hash of bytes, in lower-case hexadecimal.
pub fn sha256_hex(data: &[u8]) -> (r: String)
    ensures
        r@ == text::hex(sha256(data@)),
{
    to_hex(digest(data).as_slice())
}

/// What to save: the list, and its hash beside it.
pub struct Save {
    /// The directory to save in, where it is not that of the running program.
    pub directory: Option<&'static str>,
    pub list: Vec<u8>,
    pub hash: String,
}

/// A list that is not the one that the hash was published for.
pub struct HashMismatch {
    pub expected: String,
    pub actual: String,
}

impl HashMismatch {
    /// The message that reports the mismatch.
    pub fn message(&self) -> (r: String)
        ensures
            r@ == "hash mismatch: expected "@ + self.expected@ + ", got "@ + self.actual@,
    {
        let mut out: String = "hash mismatch: expected ".to_owned();
        out.append(self.expected.as_str());
        out.append(", got ");
        out.append(self.actual.as_str());
        out
    }
}

/// What comes of a list with this hash, when another was published: it is saved, with the
/// published hash, exactly if the two are the same but for white space around the
/// published one.
pub fn accept(list: &[u8], expected_hash: &str, actual: String) -> (r: Result<Save, HashMismatch>)
    ensures
        (r is Ok) == (actual@ == text::trimmed(expected_hash@)),
        r matches Ok(save) ==> save.directory is None && save.list@ == list@ && save.hash@
            == text::trimmed(expected_hash@),
        r matches Err(mismatch) ==> mismatch.expected@ == expected_hash@ && mismatch.actual
            == actual,
{
    let expected: &str = trim(expected_hash);
    if !same_text(actual.as_str(), expected) {
        return Err(HashMismatch { expected: expected_hash.to_owned(), actual });
    }
    Ok(Save { directory: None, list: slice_to_vec(list), hash: expected.to_owned() })
}

/// Whether a list is the one that a hash was published for.
pub open spec fn is_published(list: Seq<u8>, expected_hash: Seq<char>) -> bool {
    text::hex(sha256(list)) == text::trimmed(expected_hash)
}

/// What to save of a list that was fetched: all of it, if its hash is the published one.
pub fn verify_and_save(list: &[u8], expected_hash: &str) -> (r: Result<Save, HashMismatch>)
    ensures
        (r is Ok) == is_published(list@, expected_hash@),
        (r is Ok) == (text::hex(sha256(list@)) == text::trimmed(expected_hash@)),
        r matches Ok(save) ==> save.directory is None && save.list@ == list@ && save.hash@
            == text::trimmed(expected_hash@),
        r matches Err(mismatch) ==> mismatch.expected@ == expected_hash@ && mismatch.actual@
            == text::hex(sha256(list@)),
{
    accept(list, expected_hash, sha256_hex(list))
}

/// What to save on the first installation, when the list and its hash have been fetched
/// without a look at what is there already: the list goes to the directory of the installed
/// program.
pub fn download_fresh(list: &[u8], expected_hash: &str) -> (r: Result<Save, HashMismatch>)
    ensures
        (r is Ok) == is_published(list@, expected_hash@),
        (r is Ok) == (text::hex(sha256(list@)) == text::trimmed(expected_hash@)),
        r matches Ok(save) ==> save.list@ == list@ && save.hash@ == text::trimmed(expected_hash@)
            && (save.directory matches Some(directory) && directory@ == INSTALL_DIR@),
        r matches Err(mismatch) ==> mismatch.expected@ == expected_hash@ && mismatch.actual@
            == text::hex(sha256(list@)),
{
    match verify_and_save(list, expected_hash) {
        Ok(save) => Ok(
            Save { directory: Some(installed_list_dir()), list: save.list, hash: save.hash },
        ),
        Err(mismatch) => Err(mismatch),
    }
}

/// What the published hash calls for.
pub enum SyncStep {
    /// The saved list is the published one.
    UpToDate,
    /// The list is to be fetched, and held to this hash.
    Fetch(String),
}

/// Whether the saved hash, if there is one, is the published one.
pub open spec fn is_current(remote_hash: Seq<char>, local_hash: Option<Seq<char>>) -> bool {
    local_hash matches Some(local) && text::trimmed(local) == text::trimmed(remote_hash)
}

/// What the published hash calls for, by the hash that was saved last.
pub fn sync(remote_hash: &str, local_hash: Option<&str>) -> (r: SyncStep)
    ensures
        (r is UpToDate) == is_current(
            remote_hash@,
            match local_hash {
                Some(local) => Some(local@),
                None => None,
            },
        ),
        r matches SyncStep::Fetch(expected) ==> expected@ == text::trimmed(remote_hash@),
        local_hash is None ==> r is Fetch,
        local_hash matches Some(local) ==> (r is UpToDate) == (text::trimmed(local@)
            == text::trimmed(remote_hash@)),
{
    let remote: &str = trim(remote_hash);
    if let Some(local) = local_hash {
        if same_text(trim(local), remote) {
            return SyncStep::UpToDate;
        }
    }
    SyncStep::Fetch(remote.to_owned())
}

/// A list is fetched once: after it was saved, its hash is current, until another hash is
/// published.
pub proof fn saved_list_is_current(remote_hash: Seq<char>, saved_hash: Seq<char>)
    requires
        saved_hash == text::trimmed(remote_hash),
    ensures
        is_current(remote_hash, Some(saved_hash)),
{
    text::trimmed_is_stable(remote_hash);
}

/// A saved hash is current for one published hash only: a list is fetched whenever the two
/// differ in more than the white space around them, or none is saved.
pub proof fn a_saved_hash_is_current_for_one_list(remote_hash: Seq<char>, local_hash: Seq<char>)
    ensures
        is_current(remote_hash, Some(local_hash)) <==> text::trimmed(remote_hash) == text::trimmed(
            local_hash,
        ),
        !is_current(remote_hash, None),
{
}

/// Two published hashes that find the same saved hash current are the same but for white
/// space.
pub proof fn another_hash_calls_for_the_list(
    remote_hash: Seq<char>,
    other_hash: Seq<char>,
    local_hash: Option<Seq<char>>,
)
    requires
        is_current(remote_hash, local_hash),
        is_current(other_hash, local_hash),
    ensures
        text::trimmed(remote_hash) == text::trimmed(other_hash),
{
}

/// A list is accepted for its own hash, and for no hash but that: two lists that are
/// accepted for the same hash have the same SHA-256.
pub proof fn lists_are_held_to_their_hash(list: Seq<u8>, other: Seq<u8>, expected_hash: Seq<char>)
    ensures
        is_published(list, expected_hash) <==> text::trimmed(expected_hash) == text::hex(
            sha256(list),
        ),
        is_published(list, expected_hash) && is_published(other, expected_hash) ==> sha256(list)
            == sha256(other),
{
    if is_published(list, expected_hash) && is_published(other, expected_hash) {
        text::hexadecimals_differ(sha256(list), sha256(other));
    }
}

/// Trimming the published hash before the list is held to it makes no difference.
pub proof fn white_space_around_the_hash_is_ignored(list: Seq<u8>, expected_hash: Seq<char>)
    ensures
        is_published(list, text::trimmed(expected_hash)) == is_published(list, expected_hash),
{
    text::trimmed_is_stable(expected_hash);
}

} // verus!
