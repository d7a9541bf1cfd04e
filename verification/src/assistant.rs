//! The conversation shown by the assistant panel: a list of headers, plain
//! messages and code messages.  Sending a message and receiving the reply
//! in pieces change this list; each change reports which rows of the
//! list view to refresh.
use vstd::prelude::*;
use vstd::string::StringExecFns;

verus! {

/// Who wrote a message.
#[derive(Clone, Copy, Debug, PartialEq, Eq, Structural)]
pub enum Role {
    Assistant,
    User,
}

/// The role field of a reply, as the server sends it.
#[derive(Clone, Copy, Debug, PartialEq, Eq, Structural)]
pub enum ResponseRole {
    User,
    Assistant,
    System,
}

/// The panel's role for a reply's role: the system has none.
pub open spec fn role_for(proto: ResponseRole) -> Option<Role> {
    match proto {
        ResponseRole::User => Some(Role::User),
        ResponseRole::Assistant => Some(Role::Assistant),
        ResponseRole::System => None,
    }
}

/// The panel's role for a reply's role field, if it has one.
pub open spec fn reply_role(role: Option<ResponseRole>) -> Option<Role> {
    match role {
        Some(p) => role_for(p),
        None => None,
    }
}

impl Role {
    /// The panel's role for a reply's role: the system has none.
    pub fn from_proto(proto: ResponseRole) -> (r: Option<Role>)
        ensures
            r == role_for(proto),
    {
        match proto {
            ResponseRole::User => Some(Role::User),
            ResponseRole::Assistant => Some(Role::Assistant),
            _ => None,
        }
    }

    /// The number under which the role is sent to the server.
    pub fn to_proto(self) -> (n: i32)
        ensures
            n == match self {
                Role::Assistant => 0i32,
                Role::User => 1i32,
            },
    {
        match self {
            Role::Assistant => 0,
            Role::User => 1,
        }
    }
}

/// One row of the conversation.
pub enum ListItem {
    Header(Role),
    Message { role: Role, content: String },
    CodeMessage { role: Role, content: String, language: Option<String> },
}

/// A message as it is sent to the server.
pub struct RequestMessage {
    pub content: String,
    pub role: i32,
}

/// Rows `start..end` of the list view were replaced by `count` new rows.
#[derive(Clone, Copy, Debug, PartialEq, Eq, Structural)]
pub struct ListSplice {
    pub start: usize,
    pub end: usize,
    pub count: usize,
}

/// The conversation.
pub struct MessageList {
    pub items: Vec<ListItem>,
}

/// Whether `item` is a plain message by `role` with text `content`.
pub open spec fn is_message(item: ListItem, role: Role, content: Seq<char>) -> bool {
    item matches ListItem::Message { role: r, content: c } && r == role && c@ == content
}

/// Whether `splice` describes going from `before` rows to `after` rows:
/// the rows it replaces are gone and the rows it counts are new.
pub open spec fn splice_fits(splice: ListSplice, before: nat, after: nat) -> bool {
    &&& splice.start <= splice.end <= before
    &&& after == before - (splice.end - splice.start) + splice.count
}

impl MessageList {
    /// An empty conversation.
    pub fn new() -> (l: MessageList)
        ensures
            l.items@.len() == 0,
    {
        MessageList { items: Vec::new() }
    }

    /// Adds the user's message `content` under a user header, and gives the
    /// rows to refresh and the message to send.
    pub fn send(&mut self, content: String) -> (r: (ListSplice, RequestMessage))
        requires
            old(self).items@.len() + 2 <= usize::MAX,
        ensures
            final(self).items@.len() == old(self).items@.len() + 2,
            final(self).items@.take(old(self).items@.len() as int) == old(self).items@,
            final(self).items@[old(self).items@.len() as int] == ListItem::Header(Role::User),
            is_message(
                final(self).items@[old(self).items@.len() + 1int],
                Role::User,
                content@,
            ),
            r.0 == (ListSplice {
                start: old(self).items@.len() as usize,
                end: old(self).items@.len() as usize,
                count: 2,
            }),
            r.1.content@ == content@,
            r.1.role == 1,
            splice_fits(r.0, old(self).items@.len(), final(self).items@.len()),
    {
        let old_len = self.items.len();
        let sent = content.clone();
        self.items.push(ListItem::Header(Role::User));
        self.items.push(ListItem::Message { content, role: Role::User });
        proof {
            assert(self.items@.take(old_len as int) =~= old(self).items@);
        }
        let splice = ListSplice { start: old_len, end: old_len, count: 2 };
        (splice, RequestMessage { content: sent, role: Role::User.to_proto() })
    }

    /// The first piece of a reply: where it names a role of the panel, a
    /// header and an empty message by that role are added.
    pub fn start_reply(&mut self, role: Option<ResponseRole>) -> (splice: ListSplice)
        requires
            old(self).items@.len() + 2 <= usize::MAX,
        ensures
            splice_fits(splice, old(self).items@.len(), final(self).items@.len()),
            match reply_role(role) {
                Some(r) => {
                    &&& final(self).items@.len() == old(self).items@.len() + 2
                    &&& final(self).items@.take(old(self).items@.len() as int) == old(self).items@
                    &&& final(self).items@[old(self).items@.len() as int] == ListItem::Header(r)
                    &&& is_message(
                        final(self).items@[old(self).items@.len() + 1int],
                        r,
                        Seq::empty(),
                    )
                    &&& splice == (ListSplice {
                        start: old(self).items@.len() as usize,
                        end: old(self).items@.len() as usize,
                        count: 2,
                    })
                },
                None => {
                    &&& final(self).items@ == old(self).items@
                    &&& splice == (ListSplice {
                        start: old(self).items@.len() as usize,
                        end: old(self).items@.len() as usize,
                        count: 0,
                    })
                },
            },
    {
        let len_before = self.items.len();
        let role = match role {
            Some(p) => Role::from_proto(p),
            None => None,
        };
        match role {
            Some(r) => {
                self.items.push(ListItem::Header(r));
                self.items.push(ListItem::Message { role: r, content: String::new() });
                proof {
                    assert(self.items@.take(len_before as int) =~= old(self).items@);
                }
            },
            None => {},
        }
        ListSplice { start: len_before, end: len_before, count: self.items.len() - len_before }
    }

    /// A further piece of a reply: `new_content` is appended to the last
    /// row where that row is a plain message; `None` (and no change) where
    /// it is not.
    pub fn append_reply(&mut self, new_content: &str) -> (splice: Option<ListSplice>)
        ensures
            splice matches Some(sp) ==> splice_fits(sp, old(self).items@.len(), final(self).items@.len()),
            match old(self).items@.last() {
                ListItem::Message { role, content } if old(self).items@.len() > 0 => {
                    &&& final(self).items@.len() == old(self).items@.len()
                    &&& final(self).items@.drop_last() == old(self).items@.drop_last()
                    &&& is_message(final(self).items@.last(), role, content@ + new_content@)
                    &&& splice == Some(
                        ListSplice {
                            start: (old(self).items@.len() - 1) as usize,
                            end: old(self).items@.len() as usize,
                            count: 1,
                        },
                    )
                },
                _ => final(self).items@ == old(self).items@ && splice is None,
            },
    {
        let n = self.items.len();
        if n == 0 {
            return None;
        }
        let last = self.items.pop().unwrap();
        match last {
            ListItem::Message { role, content } => {
                let mut content = content;
                content.append(new_content);
                self.items.push(ListItem::Message { role, content });
                proof {
                    assert(self.items@.drop_last() =~= old(self).items@.drop_last());
                }
                Some(ListSplice { start: n - 1, end: n, count: 1 })
            },
            other => {
                self.items.push(other);
                proof {
                    assert(self.items@ =~= old(self).items@);
                }
                None
            },
        }
    }
}


/// What `unindent::unindent` makes of `s`: the common indentation of the
/// lines after the first is removed, and so is a first line that is empty.
pub uninterp spec fn unindented(s: Seq<char>) -> Seq<char>;

/// `unindent::unindent`; the result is named `unindented` of the argument.
#[verifier::external_body]
fn unindent_text(s: &str) -> (r: String)
    ensures
        r@ == unindented(s@),
{
    unindent::unindent(s)
}

pub const SAMPLE_QUESTION: &'static str = r#"
                How can I add another message to this list in Rust?
            "#;

pub const SAMPLE_CODE: &'static str = r#"
                let messages = vec![
                    Message {
                        text: "So... what do you think of this code.".to_owned(),
                        from_assistant: false,
                    },
                    Message {
                        text: "It's okay, for a human.".to_owned(),
                        from_assistant: true,
                    },
                ];
            "#;

pub const SAMPLE_THANKS: &'static str = "Thank you!";

pub const SAMPLE_ANSWER: &'static str = r#"
                You can add another message to the `messages` vector by creating a new `Message` struct and pushing it onto the vector using the `push` method.
                Here's an example:
            "#;

pub const SAMPLE_ANSWER_CODE: &'static str = r#"
                let new_message = Message {
                    text: "I think we can improve this code by using Rust macros.".to_owned(),
                    from_assistant: true,
                };

                messages.push(new_message);
            "#;

pub const SAMPLE_EXPLANATION: &'static str = r#"
                This creates a new `Message` struct with the text "I think we can improve this code by using Rust macros." and sets the `from_assistant` field to `true`. Then, it uses the `push` method to add the new message to the end of the `messages` vector.
            "#;

/// Whether `item` is a code message by `role` with text `content` in the
/// language `language`.
pub open spec fn is_code_message(
    item: ListItem,
    role: Role,
    content: Seq<char>,
    language: Seq<char>,
) -> bool {
    item matches ListItem::CodeMessage { role: r, content: c, language: Some(l) } && r == role
        && c@ == content && l@ == language
}

/// A sample conversation: a user asks how to add a message to a list and
/// the assistant answers, both with code.
pub fn sample_messages() -> (items: Vec<ListItem>)
    ensures
        items@.len() == 8,
        items@[0] == ListItem::Header(Role::User),
        is_message(items@[1], Role::User, unindented(SAMPLE_QUESTION@)),
        is_code_message(items@[2], Role::User, unindented(SAMPLE_CODE@), "rust"@),
        is_message(items@[3], Role::User, SAMPLE_THANKS@),
        items@[4] == ListItem::Header(Role::Assistant),
        is_message(items@[5], Role::Assistant, unindented(SAMPLE_ANSWER@)),
        is_code_message(items@[6], Role::Assistant, unindented(SAMPLE_ANSWER_CODE@), "rust"@),
        is_message(items@[7], Role::Assistant, unindented(SAMPLE_EXPLANATION@)),
{
    vec![
        ListItem::Header(Role::User),
        ListItem::Message { content: unindent_text(SAMPLE_QUESTION), role: Role::User },
        ListItem::CodeMessage {
            content: unindent_text(SAMPLE_CODE),
            role: Role::User,
            language: Some(String::from_str("rust")),
        },
        ListItem::Message { content: String::from_str(SAMPLE_THANKS), role: Role::User },
        ListItem::Header(Role::Assistant),
        ListItem::Message { content: unindent_text(SAMPLE_ANSWER), role: Role::Assistant },
        ListItem::CodeMessage {
            content: unindent_text(SAMPLE_ANSWER_CODE),
            role: Role::Assistant,
            language: Some(String::from_str("rust")),
        },
        ListItem::Message { content: unindent_text(SAMPLE_EXPLANATION), role: Role::Assistant },
    ]
}

/// Builds the sample conversation and lets it go.
pub fn build_sample_messages() {
    let _items = sample_messages();
}

} // verus!
