use vstd::prelude::*;

verus! {

/// The type returned by the kernel that represents the id of a message queue.
pub type MsgQueueId = i32;

/// The decision of `queue_get` on what the kernel's `msgget` returned: a
/// positive value is the id of the queue; anything else is a failure, whose
/// cause the caller reads from the operating system.
pub fn queue_id_from_raw(raw: i32) -> (id: Option<MsgQueueId>)
    ensures
        id == (if raw > 0 {
            Some(raw)
        } else {
            None::<MsgQueueId>
        }),
{
    if raw > 0 {
        Some(raw)
    } else {
        None
    }
}

/// A message sent to the system's message queue.
pub struct Message {
    text: String,
}

impl View for Message {
    type V = Seq<char>;

    /// The text of the message.
    closed spec fn view(&self) -> Seq<char> {
        self.text@
    }
}

impl Message {
    /// A message with the text `text`.
    pub fn new(text: String) -> (message: Self)
        ensures
            message@ == text@,
    {
        Self { text }
    }

    /// A message whose text is the text of an object, as its `to_string`
    /// gives it; `object_text` is that text.
    pub fn from_object(object_text: String) -> (message: Self)
        ensures
            message@ == object_text@,
    {
        Self { text: object_text }
    }
}

/// A queue of messages of the system.
pub struct MessageQueue {}

} // verus!
