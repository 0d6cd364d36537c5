use vstd::prelude::*;

verus! {

/// Metadata of one file attached to a message.
#[derive(Clone, Debug, PartialEq, Eq)]
pub struct Attachment {
    pub id: String,
    pub filename: String,
    pub url: Option<String>,
}

/// A message of the remote channel: its identifier and its attachments.
#[derive(Clone, Debug, PartialEq, Eq)]
pub struct Message {
    pub id: String,
    pub attachments: Vec<Attachment>,
}

impl Message {
    pub fn new(id: String, attachments: Vec<Attachment>) -> (r: Message)
        ensures
            r.id@ == id@,
            r.attachments@ == attachments@,
    {
        Message { id, attachments }
    }
}

impl Attachment {
    pub fn new(id: String, filename: String, url: Option<String>) -> (r: Attachment)
        ensures
            r.id@ == id@,
            r.filename@ == filename@,
            r.url == url,
    {
        Attachment { id, filename, url }
    }
}

} // verus!
