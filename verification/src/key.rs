//! Public keys of clients.

use vstd::prelude::*;

verus! {

/// A public key as it came over the wire, with its comment.
pub struct ClientKey {
    pub blob: Vec<u8>,
    pub comment: String,
}

/// What `ssh_key::PublicKey::to_openssh` writes for the key with this wire
/// encoding and comment, or `None` where it fails or there is no such key.
pub uninterp spec fn openssh_text(blob: Seq<u8>, comment: Seq<char>) -> Option<Seq<char>>;

/// Calls `PublicKey::to_openssh` of the `ssh_key` crate, as `russh::keys`
/// exports it, on the key that `PublicKey::from_bytes` reads from `blob`, with
/// `comment` set on it. The result is a function of the two; which keys fail is
/// left unsaid.
#[verifier::external_body]
fn encode_openssh(blob: &[u8], comment: &str) -> (r: Option<String>)
    ensures
        match r {
            Some(text) => openssh_text(blob@, comment@) == Some(text@),
            None => openssh_text(blob@, comment@) is None,
        },
{
    let mut key = russh::keys::ssh_key::PublicKey::from_bytes(blob).ok()?;
    key.set_comment(comment);
    key.to_openssh().ok()
}

impl ClientKey {
    /// The line that stands for this key in OpenSSH files.
    pub open spec fn openssh(self) -> Option<Seq<char>> {
        openssh_text(self.blob@, self.comment@)
    }

    /// The line that stands for this key in OpenSSH files.
    pub fn to_openssh(&self) -> (r: Option<String>)
        ensures
            match r {
                Some(text) => self.openssh() == Some(text@),
                None => self.openssh() is None,
            },
    {
        encode_openssh(self.blob.as_slice(), self.comment.as_str())
    }
}

/// The line that stands for a key comes of the whole key: of its wire encoding and
/// of its comment, as they are.
pub proof fn a_key_is_written_whole(key: ClientKey, r: Option<String>)
    requires
        call_ensures(ClientKey::to_openssh, (&key,), r),
    ensures
        key.openssh() == openssh_text(key.blob@, key.comment@),
        match r {
            Some(text) => openssh_text(key.blob@, key.comment@) == Some(text@),
            None => openssh_text(key.blob@, key.comment@) is None,
        },
{
}

} // verus!
