use vstd::prelude::*;

use crate::encryption::{
    encrypt_text, is_envelope_for, EncryptionError, EncryptionService, MAX_PLAINTEXT_BYTES,
};
use vstd::utf8::encode_utf8;

verus! {

/// A registration request.
#[derive(Debug, Clone)]
pub struct CreateUser {
    pub username: String,
    pub email: String,
    pub password: String,
}

/// A login request.
#[derive(Debug, Clone)]
pub struct LoginUser {
    pub email: String,
    pub password: String,
}

/// A new journal entry as the client sends it; `content` is plaintext
/// here and is sealed before it is ever stored.
#[derive(Debug, Clone)]
pub struct CreateJournalEntry {
    pub title: String,
    pub content: String,
    pub mood_score: Option<i32>,
    pub tags: Option<Vec<String>>,
}

/// A partial update of a journal entry: a given field replaces the
/// stored one, an absent field leaves it as it is.
#[derive(Debug, Clone)]
pub struct UpdateJournalEntry {
    pub title: Option<String>,
    pub content: Option<String>,
    pub mood_score: Option<i32>,
    pub tags: Option<Vec<String>>,
}

/// The sealed content an update leaves in the store: new plaintext is
/// sealed under the service's key, while an update without content
/// keeps the stored envelope exactly.
pub fn sealed_content_for_update(
    svc: &EncryptionService,
    update: &UpdateJournalEntry,
    existing_sealed: &String,
) -> (r: Result<String, EncryptionError>)
    requires
        svc.wf(),
        update.content matches Some(c) ==> encode_utf8(c@).len() <= MAX_PLAINTEXT_BYTES,
    ensures
        update.content is None ==> (r matches Ok(s) && s@ == existing_sealed@),
        update.content matches Some(c) ==> (r matches Ok(s) ==> is_envelope_for(
            svc.key_bytes(),
            c@,
            s@,
        )),
        update.content matches Some(c) ==> (r matches Err(e) ==> e
            == EncryptionError::EntropyUnavailable),
{
    match &update.content {
        Some(content) => encrypt_text(svc, content.as_str()),
        None => Ok(existing_sealed.clone()),
    }
}

} // verus!
