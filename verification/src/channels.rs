//! The channels a user follows.  The channel roots are kept here; asking the
//! server for the channels under them, and waiting for its reply, happens
//! around this module, which builds the request and reads the reply.
use vstd::prelude::*;
use vstd::string::StringExecFns;

verus! {

/// A channel, with the channels below it.
pub struct Channel {
    id: u64,
    name: String,
    sub_channels: Vec<Channel>,
    _room: Option<()>,
}

impl Channel {
    pub closed spec fn spec_id(&self) -> u64 {
        self.id
    }

    pub closed spec fn spec_name(&self) -> Seq<char> {
        self.name@
    }

    pub closed spec fn spec_members(&self) -> Seq<Channel> {
        self.sub_channels@
    }

    /// A channel `id` named `name`, with `members` below it.
    pub fn new(id: u64, name: &str, members: Vec<Channel>) -> (c: Channel)
        ensures
            c.spec_id() == id,
            c.spec_name() == name@,
            c.spec_members() == members@,
    {
        Channel { name: String::from_str(name), id, sub_channels: members, _room: None }
    }

    /// The channel's id.
    pub fn id(&self) -> (id: u64)
        ensures
            id == self.spec_id(),
    {
        self.id
    }

    /// The channels below this one.
    pub fn members(&self) -> (m: &[Channel])
        ensures
            m@ == self.spec_members(),
    {
        self.sub_channels.as_slice()
    }

    /// The channel's name.
    pub fn name(&self) -> (n: &str)
        ensures
            n@ == self.spec_name(),
    {
        self.name.as_str()
    }
}

/// One channel of the server's reply: its id and name.
pub struct ChannelInfo {
    pub id: u64,
    pub name: String,
}

/// The request for the channels under `channel_roots`.
pub struct GetChannels {
    pub channel_roots: Vec<u64>,
}

/// The roots the user follows, and the channels known so far.
pub struct Channels {
    roots: Vec<u64>,
    channels: Vec<Channel>,
}

impl Channels {
    pub closed spec fn spec_roots(&self) -> Seq<u64> {
        self.roots@
    }

    pub closed spec fn spec_channels(&self) -> Seq<Channel> {
        self.channels@
    }

    /// No root and no channel.
    pub fn new() -> (c: Channels)
        ensures
            c.spec_roots() == Seq::<u64>::empty(),
            c.spec_channels() == Seq::<Channel>::empty(),
    {
        Channels { roots: Vec::new(), channels: Vec::new() }
    }

    /// The roots followed, in the order they were added.
    pub fn roots(&self) -> (r: &[u64])
        ensures
            r@ == self.spec_roots(),
    {
        self.roots.as_slice()
    }

    /// Follows `channel_id` as a root, and gives the request for the
    /// channels under it.
    pub fn add_root_channel(&mut self, channel_id: u64) -> (request: GetChannels)
        ensures
            final(self).spec_roots() == old(self).spec_roots().push(channel_id),
            final(self).spec_channels() == old(self).spec_channels(),
            request.channel_roots@ == seq![channel_id],
    {
        self.roots.push(channel_id);
        self.get_channel(channel_id)
    }

    /// The request for the channels under `id`.
    pub fn get_channel(&self, id: u64) -> (request: GetChannels)
        ensures
            request.channel_roots@ == seq![id],
    {
        GetChannels { channel_roots: vec![id] }
    }

    /// The request for the channels under every root followed.
    pub fn get_channels(&self) -> (request: GetChannels)
        ensures
            request.channel_roots@ == self.spec_roots(),
    {
        GetChannels { channel_roots: self.roots.clone() }
    }
}

/// The channels of a reply, in its order, each with no channel below it.
pub fn channels_from_reply(reply: Vec<ChannelInfo>) -> (channels: Vec<Channel>)
    ensures
        channels@.len() == reply@.len(),
        forall|i: int|
            0 <= i < reply@.len() ==> {
                &&& (#[trigger] channels@[i]).spec_id() == reply@[i].id
                &&& channels@[i].spec_name() == reply@[i].name@
                &&& channels@[i].spec_members() == Seq::<Channel>::empty()
            },
{
    let mut channels: Vec<Channel> = Vec::new();
    let mut i: usize = 0;
    while i < reply.len()
        invariant
            i <= reply.len(),
            channels@.len() == i,
            forall|j: int|
                0 <= j < i ==> {
                    &&& (#[trigger] channels@[j]).spec_id() == reply@[j].id
                    &&& channels@[j].spec_name() == reply@[j].name@
                    &&& channels@[j].spec_members() == Seq::<Channel>::empty()
                },
        decreases reply.len() - i,
    {
        let info = &reply[i];
        let members: Vec<Channel> = Vec::new();
        channels.push(Channel::new(info.id, info.name.as_str(), members));
        i += 1;
    }
    channels
}

} // verus!
