use vstd::prelude::*;
use vstd::utf8::encode_utf8;

use crate::state::Pubkey;

verus! {

/// Longest journal title, in bytes; the title also names the record's address.
pub const MAX_TITLE_LEN: usize = 32;

/// Longest journal message, in bytes.
pub const MAX_MESSAGE_LEN: usize = 256;

/// An owner-tagged journal record.
#[derive(Clone, Debug)]
pub struct JournalEntry {
    pub owner: Pubkey,
    pub title: String,
    pub message: String,
}

/// Why a journal operation was refused.
#[derive(Clone, Copy, Debug, PartialEq, Eq, Structural)]
pub enum JournalError {
    TitleTooLong,
    MessageTooLong,
    Unauthorized,
}

/// A title that fits the record: at most `MAX_TITLE_LEN` bytes of UTF-8.
pub open spec fn title_fits(title: Seq<char>) -> bool {
    encode_utf8(title).len() <= MAX_TITLE_LEN
}

/// A message that fits the record: at most `MAX_MESSAGE_LEN` bytes of UTF-8.
pub open spec fn message_fits(message: Seq<char>) -> bool {
    encode_utf8(message).len() <= MAX_MESSAGE_LEN
}

/// Creates the journal record titled `title` for `owner`.
pub fn create_journal_entry(owner: Pubkey, title: String, message: String) -> (r: Result<
    JournalEntry,
    JournalError,
>)
    ensures
        !title_fits(title@) ==> r == Err::<JournalEntry, JournalError>(JournalError::TitleTooLong),
        title_fits(title@) && !message_fits(message@) ==> r == Err::<JournalEntry, JournalError>(
            JournalError::MessageTooLong,
        ),
        title_fits(title@) && message_fits(message@) <==> r is Ok,
        r is Ok ==> r->Ok_0.owner == owner && r->Ok_0.title@ == title@ && r->Ok_0.message@
            == message@,
{
    if title.as_str().as_bytes().len() > MAX_TITLE_LEN {
        return Err(JournalError::TitleTooLong);
    }
    if message.as_str().as_bytes().len() > MAX_MESSAGE_LEN {
        return Err(JournalError::MessageTooLong);
    }
    Ok(JournalEntry { owner, title, message })
}

/// Replaces the message of an entry; only its owner may do so.
pub fn update_journal_entry(entry: &mut JournalEntry, signer: Pubkey, message: String) -> (r:
    Result<(), JournalError>)
    ensures
        signer != old(entry).owner ==> r == Err::<(), JournalError>(JournalError::Unauthorized),
        signer == old(entry).owner && !message_fits(message@) ==> r == Err::<(), JournalError>(
            JournalError::MessageTooLong,
        ),
        r is Ok <==> signer == old(entry).owner && message_fits(message@),
        r is Ok ==> final(entry).owner == old(entry).owner && final(entry).title@ == old(
            entry,
        ).title@ && final(entry).message@ == message@,
        r is Err ==> final(entry).owner == old(entry).owner && final(entry).title@ == old(
            entry,
        ).title@ && final(entry).message@ == old(entry).message@,
{
    if signer != entry.owner {
        return Err(JournalError::Unauthorized);
    }
    if message.as_str().as_bytes().len() > MAX_MESSAGE_LEN {
        return Err(JournalError::MessageTooLong);
    }
    entry.message = message;
    Ok(())
}

/// Closes an entry; only its owner may do so. On success the record is
/// consumed and its title is handed back.
pub fn delete_journal_entry(entry: JournalEntry, signer: Pubkey) -> (r: Result<
    String,
    JournalError,
>)
    ensures
        signer != entry.owner <==> r == Err::<String, JournalError>(JournalError::Unauthorized),
        signer == entry.owner <==> r is Ok,
        r is Ok ==> r->Ok_0@ == entry.title@,
{
    if signer != entry.owner {
        return Err(JournalError::Unauthorized);
    }
    Ok(entry.title)
}

} // verus!
