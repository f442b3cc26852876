//! Records of the key-value store that keeps bots, conversations, memories,
//! messages and holds, and the scheme of their hash and range keys.

use vstd::prelude::*;
use crate::value::{int_text, int_to_text, owned};

verus! {

/// The client a conversation belongs to.
#[derive(Clone, Debug)]
pub struct Client {
    pub bot_id: String,
    pub channel_id: String,
    pub user_id: String,
}

impl Client {
    pub fn duplicate(&self) -> (r: Client)
        ensures
            r.bot_id@ == self.bot_id@,
            r.channel_id@ == self.channel_id@,
            r.user_id@ == self.user_id@,
    {
        Client { bot_id: self.bot_id.clone(), channel_id: self.channel_id.clone(), user_id: self.user_id.clone() }
    }
}

pub open spec fn same_client(a: Option<Client>, c: Client) -> bool {
    a matches Some(x) && x.bot_id@ == c.bot_id@ && x.channel_id@ == c.channel_id@ && x.user_id@ == c.user_id@
}

/// Hash key of everything stored for a client:
/// `bot_id:<bot>#channel_id:<channel>#user_id:<user>`.
pub open spec fn client_hash(c: Client) -> Seq<char> {
    "bot_id:"@ + c.bot_id@ + "#channel_id:"@ + c.channel_id@ + "#user_id:"@ + c.user_id@
}

/// The parts joined with '#'.
pub open spec fn join_spec(parts: Seq<Seq<char>>) -> Seq<char>
    decreases parts.len(),
{
    if parts.len() == 0 {
        Seq::empty()
    } else if parts.len() == 1 {
        parts[0]
    } else {
        join_spec(parts.drop_last()) + "#"@ + parts.last()
    }
}

pub open spec fn strs_of(parts: Seq<&str>) -> Seq<Seq<char>> {
    parts.map_values(|p: &str| p@)
}

/// Builds a hash key for a client.
pub fn make_hash(client: &Client) -> (r: String)
    ensures
        r@ == client_hash(*client),
{
    let mut r = owned("bot_id:");
    r.append(client.bot_id.as_str());
    r.append("#channel_id:");
    r.append(client.channel_id.as_str());
    r.append("#user_id:");
    r.append(client.user_id.as_str());
    r
}

/// Joins key parts with '#'.
pub fn make_range(parts: &[&str]) -> (r: String)
    ensures
        r@ == join_spec(strs_of(parts@)),
{
    let mut r = String::new();
    let mut i: usize = 0;
    while i < parts.len()
        invariant
            i <= parts@.len(),
            r@ == join_spec(strs_of(parts@).subrange(0, i as int)),
        decreases parts.len() - i,
    {
        let ghost pre = strs_of(parts@).subrange(0, i as int);
        assert(strs_of(parts@).subrange(0, i + 1).drop_last() =~= pre);
        if i > 0 {
            r.append("#");
        }
        r.append(parts[i]);
        if i == 0 {
            assert(r@ =~= join_spec(strs_of(parts@).subrange(0, 1)));
        }
        i += 1;
    }
    assert(strs_of(parts@).subrange(0, parts@.len() as int) =~= strs_of(parts@));
    r
}

/// Number of '#' separators in a key.
pub open spec fn separators(s: Seq<char>) -> nat
    decreases s.len(),
{
    if s.len() == 0 {
        0
    } else {
        separators(s.drop_last()) + if s.last() == '#' { 1nat } else { 0nat }
    }
}

/// `f` is field `n` of the '#'-separated key `s` (fields count from 0).
pub open spec fn is_field(s: Seq<char>, n: nat, f: Seq<char>) -> bool {
    exists|a: int, b: int|
        #![trigger s.subrange(a, b)]
        0 <= a <= b <= s.len() && f == s.subrange(a, b) && separators(s.subrange(0, a)) == n
            && (a == 0 || s[a - 1] == '#') && (b == s.len() || s[b] == '#')
            && (forall|j: int| a <= j < b ==> s[j] != '#')
}

proof fn lemma_separators_step(s: Seq<char>, i: int)
    requires
        0 <= i < s.len(),
    ensures
        separators(s.subrange(0, i + 1)) == separators(s.subrange(0, i)) + if s[i] == '#' { 1nat } else { 0nat },
{
    assert(s.subrange(0, i + 1).drop_last() =~= s.subrange(0, i));
}

/// The key in a string form, with its chief fields.
#[derive(Debug)]
pub struct DynamoDbKey {
    hash: String,
    range: String,
}

impl DynamoDbKey {
    pub fn new(hash: &str, range: &str) -> (r: DynamoDbKey)
        ensures
            r.hash_key()@ == hash@,
            r.range_key()@ == range@,
    {
        DynamoDbKey { hash: hash.to_string(), range: range.to_string() }
    }

    pub closed spec fn hash_key(&self) -> String {
        self.hash
    }

    pub closed spec fn range_key(&self) -> String {
        self.range
    }

    pub fn hash(&self) -> (r: &String)
        ensures
            r@ == self.hash_key()@,
    {
        &self.hash
    }

    pub fn range(&self) -> (r: &String)
        ensures
            r@ == self.range_key()@,
    {
        &self.range
    }
}

/// Relies on uuid's `Uuid::new_v4` and its `Display`, which writes the
/// hyphenated form: 36 characters. The id is random.
#[verifier::external_body]
fn new_uuid() -> (r: String)
    ensures
        r@.len() == 36,
{
    uuid::Uuid::new_v4().to_string()
}

/// Relies on chrono's `Utc::now` and `DateTime::to_rfc3339`: the present
/// time, which nothing here can state.
#[verifier::external_body]
fn get_date_time() -> (r: String) {
    chrono::Utc::now().to_rfc3339()
}

/// Version of the engine recorded with each bot version.
pub const ENGINE_VERSION: &'static str = "0.1.0";

#[derive(Debug)]
pub struct Bot {
    pub hash: String,
    pub range: String,
    pub range_time: String,
    pub class: String,
    pub version_id: String,
    pub id: String,
    pub bot: String,
    pub engine_version: String,
    pub created_at: String,
}

impl Bot {
    pub fn get_hash(id: &str) -> (r: String)
        ensures
            r@ == "bot#"@ + id@,
    {
        let mut r = owned("bot#");
        r.append(id);
        r
    }

    pub fn get_range(version_id: &str) -> (r: String)
        ensures
            r@ == join_spec(seq!["version"@, version_id@]),
    {
        let parts = ["version", version_id];
        assert(strs_of(parts@) =~= seq!["version"@, version_id@]);
        make_range(&parts)
    }

    /// A new version of bot `id`, under a fresh random version id.
    pub fn new(id: String, bot: String) -> (r: Bot)
        ensures
            r.hash@ == "bot#"@ + id@,
            r.range@ == join_spec(seq!["version"@, r.version_id@]),
            r.range_time@ == join_spec(seq!["bot"@, r.created_at@, r.version_id@]),
            r.class@ == "bot"@,
            r.version_id@.len() == 36,
            r.id@ == id@,
            r.bot@ == bot@,
            r.engine_version@ == ENGINE_VERSION@,
    {
        let version_id = new_uuid();
        let now = get_date_time();
        let parts = ["bot", now.as_str(), version_id.as_str()];
        assert(strs_of(parts@) =~= seq!["bot"@, now@, version_id@]);
        Bot {
            hash: Self::get_hash(id.as_str()),
            range: Self::get_range(version_id.as_str()),
            range_time: make_range(&parts),
            class: owned("bot"),
            version_id,
            id,
            bot,
            engine_version: owned(ENGINE_VERSION),
            created_at: now,
        }
    }
}

#[derive(Debug)]
pub struct ConversationDeleteInfo {
    pub status: String,
    pub id: String,
}

#[derive(Debug)]
pub struct Conversation {
    pub hash: String,
    pub range: String,
    pub range_time: String,
    pub class: String,
    pub id: String,
    pub client: Option<Client>,
    pub bot_id: Option<String>,
    pub channel_id: Option<String>,
    pub user_id: Option<String>,
    pub flow_id: String,
    pub step_id: String,
    pub status: String,
    pub last_interaction_at: String,
    pub updated_at: String,
    pub created_at: String,
}

impl Conversation {
    pub fn get_hash(client: &Client) -> (r: String)
        ensures
            r@ == client_hash(*client),
    {
        make_hash(client)
    }

    pub fn get_range(status: &str, id: &str) -> (r: String)
        ensures
            r@ == join_spec(seq!["conversation"@, status@, id@]),
    {
        let parts = ["conversation", status, id];
        assert(strs_of(parts@) =~= seq!["conversation"@, status@, id@]);
        make_range(&parts)
    }

    /// The conversation id of a range key: its third '#'-separated field.
    pub fn get_conversation_id_from_range(range: &str) -> (r: String)
        requires
            separators(range@) >= 2,
        ensures
            is_field(range@, 2, r@),
    {
        let n = range.unicode_len();
        let mut seen: usize = 0;
        let mut i: usize = 0;
        while i < n && seen < 2
            invariant
                n == range@.len(),
                i <= n,
                seen <= 2,
                seen == separators(range@.subrange(0, i as int)),
                seen < 2 ==> i < n || separators(range@) == seen,
                i > 0 && seen == 2 ==> range@[i - 1] == '#',
            decreases n - i,
        {
            proof { lemma_separators_step(range@, i as int); }
            if range.get_char(i) == '#' {
                seen += 1;
            }
            i += 1;
        }
        assert(range@.subrange(0, n as int) =~= range@);
        let a = i;
        let mut b = i;
        while b < n && range.get_char(b) != '#'
            invariant
                n == range@.len(),
                a <= b <= n,
                forall|j: int| a <= j < b ==> range@[j] != '#',
            decreases n - b,
        {
            b += 1;
        }
        let r = range.substring_char(a, b).to_string();
        assert(r@ == range@.subrange(a as int, b as int));
        r
    }

    pub fn get_key(client: &Client, status: &str, id: &str) -> (r: DynamoDbKey)
        ensures
            r.hash_key()@ == client_hash(*client),
            r.range_key()@ == join_spec(seq!["conversation"@, status@, id@]),
    {
        let hash = Self::get_hash(client);
        let range = Self::get_range(status, id);
        DynamoDbKey::new(hash.as_str(), range.as_str())
    }

    /// A new open conversation of `client` at `flow_id`/`step_id`.
    pub fn new(client: &Client, flow_id: &str, step_id: &str) -> (r: Conversation)
        ensures
            r.hash@ == client_hash(*client),
            r.range@ == join_spec(seq!["conversation"@, "OPEN"@, r.id@]),
            r.range_time@ == join_spec(seq!["conversation"@, "OPEN"@, r.created_at@, r.id@]),
            r.class@ == "conversation"@,
            r.id@.len() == 36,
            same_client(r.client, *client),
            r.bot_id == Some(client.bot_id),
            r.channel_id == Some(client.channel_id),
            r.user_id == Some(client.user_id),
            r.flow_id@ == flow_id@,
            r.step_id@ == step_id@,
            r.status@ == "OPEN"@,
            r.last_interaction_at@ == r.created_at@,
            r.updated_at@ == r.created_at@,
    {
        let id = new_uuid();
        let now = get_date_time();
        let parts = ["conversation", "OPEN", now.as_str(), id.as_str()];
        assert(strs_of(parts@) =~= seq!["conversation"@, "OPEN"@, now@, id@]);
        Conversation {
            hash: Self::get_hash(client),
            range: Self::get_range("OPEN", id.as_str()),
            range_time: make_range(&parts),
            class: owned("conversation"),
            client: Some(client.duplicate()),
            bot_id: Some(client.bot_id.clone()),
            channel_id: Some(client.channel_id.clone()),
            user_id: Some(client.user_id.clone()),
            flow_id: flow_id.to_string(),
            step_id: step_id.to_string(),
            status: owned("OPEN"),
            last_interaction_at: now.clone(),
            updated_at: now.clone(),
            created_at: now,
            id,
        }
    }
}

#[derive(Debug)]
pub struct InteractionDeleteInfo {
    pub id: String,
}

#[derive(Debug)]
pub struct Interaction {
    pub hash: String,
    pub range: String,
    pub range_time: String,
    pub class: String,
    pub id: String,
    pub client: Option<Client>,
    pub bot_id: Option<String>,
    pub channel_id: Option<String>,
    pub user_id: Option<String>,
    pub success: bool,
    pub event: String,
    pub updated_at: String,
    pub created_at: String,
}

impl Interaction {
    pub fn get_hash(client: &Client) -> (r: String)
        ensures
            r@ == client_hash(*client),
    {
        make_hash(client)
    }

    pub fn get_range(id: &str) -> (r: String)
        ensures
            r@ == join_spec(seq!["interaction"@, id@]),
    {
        let parts = ["interaction", id];
        assert(strs_of(parts@) =~= seq!["interaction"@, id@]);
        make_range(&parts)
    }

    pub fn get_key(client: &Client, id: &str) -> (r: DynamoDbKey)
        ensures
            r.hash_key()@ == client_hash(*client),
            r.range_key()@ == join_spec(seq!["interaction"@, id@]),
    {
        let hash = Self::get_hash(client);
        let range = Self::get_range(id);
        DynamoDbKey::new(hash.as_str(), range.as_str())
    }

    /// A new, not yet successful interaction of `client` with id `id`.
    pub fn new(id: &str, client: &Client, encrypted_event: &str) -> (r: Interaction)
        ensures
            r.hash@ == client_hash(*client),
            r.range@ == join_spec(seq!["interaction"@, id@]),
            r.range_time@ == join_spec(seq!["interaction"@, r.created_at@, id@]),
            r.class@ == "interaction"@,
            r.id@ == id@,
            same_client(r.client, *client),
            r.bot_id == Some(client.bot_id),
            r.channel_id == Some(client.channel_id),
            r.user_id == Some(client.user_id),
            !r.success,
            r.event@ == encrypted_event@,
            r.updated_at@ == r.created_at@,
    {
        let now = get_date_time();
        let parts = ["interaction", now.as_str(), id];
        assert(strs_of(parts@) =~= seq!["interaction"@, now@, id@]);
        Interaction {
            hash: Self::get_hash(client),
            range: Self::get_range(id),
            range_time: make_range(&parts),
            class: owned("interaction"),
            id: id.to_string(),
            client: Some(client.duplicate()),
            bot_id: Some(client.bot_id.clone()),
            channel_id: Some(client.channel_id.clone()),
            user_id: Some(client.user_id.clone()),
            success: false,
            event: encrypted_event.to_string(),
            updated_at: now.clone(),
            created_at: now,
        }
    }
}

#[derive(Debug)]
pub struct MemoryDeleteInfo {
    pub range: String,
}

#[derive(Debug)]
pub struct MemoryGetInfo {
    pub key: String,
    pub value: Option<String>,
    pub created_at: String,
}

#[derive(Debug)]
pub struct Memory {
    pub hash: String,
    pub range: String,
    pub range_time: String,
    pub class: String,
    pub client: Option<Client>,
    pub bot_id: Option<String>,
    pub channel_id: Option<String>,
    pub user_id: Option<String>,
    pub key: String,
    pub value: Option<String>,
    pub expires_at: Option<String>,
    pub created_at: String,
}

impl Memory {
    pub fn get_hash(client: &Client) -> (r: String)
        ensures
            r@ == client_hash(*client),
    {
        make_hash(client)
    }

    pub fn get_range(key: &str) -> (r: String)
        ensures
            r@ == join_spec(seq!["memory"@, key@]),
    {
        let parts = ["memory", key];
        assert(strs_of(parts@) =~= seq!["memory"@, key@]);
        make_range(&parts)
    }

    /// A memory record of `client` for `key`, holding the encrypted value.
    pub fn new(client: &Client, key: &str, encrypted_value: Option<String>) -> (r: Memory)
        ensures
            r.hash@ == client_hash(*client),
            r.range@ == join_spec(seq!["memory"@, key@]),
            r.range_time@ == join_spec(seq!["memory"@, r.created_at@, r.range@]),
            r.class@ == "memory"@,
            same_client(r.client, *client),
            r.bot_id == Some(client.bot_id),
            r.channel_id == Some(client.channel_id),
            r.user_id == Some(client.user_id),
            r.key@ == key@,
            r.value == encrypted_value,
            r.expires_at is None,
    {
        let hash = Self::get_hash(client);
        let range = Self::get_range(key);
        let now = get_date_time();
        let parts = ["memory", now.as_str(), range.as_str()];
        assert(strs_of(parts@) =~= seq!["memory"@, now@, range@]);
        Memory {
            hash,
            range_time: make_range(&parts),
            range,
            class: owned("memory"),
            client: Some(client.duplicate()),
            bot_id: Some(client.bot_id.clone()),
            channel_id: Some(client.channel_id.clone()),
            user_id: Some(client.user_id.clone()),
            key: key.to_string(),
            value: encrypted_value,
            expires_at: None,
            created_at: now,
        }
    }
}

#[derive(Debug)]
pub struct Message {
    pub hash: String,
    pub range: String,
    pub range_time: String,
    pub class: String,
    pub id: String,
    pub client: Option<Client>,
    pub bot_id: Option<String>,
    pub channel_id: Option<String>,
    pub user_id: Option<String>,
    pub interaction_id: String,
    pub conversation_id: String,
    pub flow_id: String,
    pub step_id: String,
    pub message_order: i32,
    pub interaction_order: i32,
    pub direction: String,
    pub payload: String,
    pub content_type: String,
    pub created_at: String,
}

impl Message {
    pub fn get_hash(client: &Client) -> (r: String)
        ensures
            r@ == client_hash(*client),
    {
        make_hash(client)
    }

    pub fn get_range(conversation_id: &str, id: &str) -> (r: String)
        ensures
            r@ == join_spec(seq!["message"@, conversation_id@, id@]),
    {
        let parts = ["message", conversation_id, id];
        assert(strs_of(parts@) =~= seq!["message"@, conversation_id@, id@]);
        make_range(&parts)
    }

    /// A message record of `client` in a conversation, under a fresh id.
    pub fn new(
        client: &Client,
        conversation_id: &str,
        interaction_id: &str,
        flow_id: &str,
        step_id: &str,
        direction: &str,
        interaction_order: i32,
        message_order: i32,
        payload: &str,
        content_type: &str,
    ) -> (r: Message)
        ensures
            r.hash@ == client_hash(*client),
            r.range@ == join_spec(seq!["message"@, conversation_id@, r.id@]),
            r.range_time@ == join_spec(
                seq!["message"@, r.created_at@, int_text(interaction_order as int), int_text(message_order as int), r.id@],
            ),
            r.class@ == "message"@,
            r.id@.len() == 36,
            same_client(r.client, *client),
            r.bot_id == Some(client.bot_id),
            r.channel_id == Some(client.channel_id),
            r.user_id == Some(client.user_id),
            r.interaction_id@ == interaction_id@,
            r.conversation_id@ == conversation_id@,
            r.flow_id@ == flow_id@,
            r.step_id@ == step_id@,
            r.message_order == message_order,
            r.interaction_order == interaction_order,
            r.direction@ == direction@,
            r.payload@ == payload@,
            r.content_type@ == content_type@,
    {
        let id = new_uuid();
        let now = get_date_time();
        let io = int_to_text(interaction_order as i64);
        let mo = int_to_text(message_order as i64);
        let parts = ["message", now.as_str(), io.as_str(), mo.as_str(), id.as_str()];
        assert(strs_of(parts@) =~= seq!["message"@, now@, io@, mo@, id@]);
        Message {
            hash: Self::get_hash(client),
            range: Self::get_range(conversation_id, id.as_str()),
            range_time: make_range(&parts),
            class: owned("message"),
            client: Some(client.duplicate()),
            bot_id: Some(client.bot_id.clone()),
            channel_id: Some(client.channel_id.clone()),
            user_id: Some(client.user_id.clone()),
            interaction_id: interaction_id.to_string(),
            conversation_id: conversation_id.to_string(),
            flow_id: flow_id.to_string(),
            step_id: step_id.to_string(),
            message_order,
            interaction_order,
            direction: direction.to_string(),
            payload: payload.to_string(),
            content_type: content_type.to_string(),
            created_at: now,
            id,
        }
    }
}

#[derive(Debug)]
pub struct NodeDeleteInfo {
    pub id: String,
    pub conversation_id: String,
}

#[derive(Debug)]
pub struct Node {
    pub hash: String,
    pub range: String,
    pub range_time: String,
    pub class: String,
    pub id: String,
    pub client: Option<Client>,
    pub bot_id: Option<String>,
    pub channel_id: Option<String>,
    pub user_id: Option<String>,
    pub conversation_id: String,
    pub interaction_id: String,
    pub flow_id: String,
    pub step_id: String,
    pub next_flow: Option<String>,
    pub next_step: Option<String>,
    pub created_at: String,
}

impl Node {
    /// A record of one step change in a conversation, under a fresh id.
    pub fn new(
        client: &Client,
        conversation_id: &str,
        interaction_id: &str,
        flow_id: &str,
        step_id: &str,
        next_flow: Option<String>,
        next_step: Option<String>,
    ) -> (r: Node)
        ensures
            r.hash@ == join_spec(seq!["conversation"@, conversation_id@]),
            r.range@ == join_spec(seq!["path"@, r.id@]),
            r.range_time@ == join_spec(seq!["path"@, r.created_at@, r.id@]),
            r.class@ == "path"@,
            r.id@.len() == 36,
            same_client(r.client, *client),
            r.bot_id == Some(client.bot_id),
            r.channel_id == Some(client.channel_id),
            r.user_id == Some(client.user_id),
            r.conversation_id@ == conversation_id@,
            r.interaction_id@ == interaction_id@,
            r.flow_id@ == flow_id@,
            r.step_id@ == step_id@,
            r.next_flow == next_flow,
            r.next_step == next_step,
    {
        let id = new_uuid();
        let now = get_date_time();
        let hash_parts = ["conversation", conversation_id];
        assert(strs_of(hash_parts@) =~= seq!["conversation"@, conversation_id@]);
        let range_parts = ["path", id.as_str()];
        assert(strs_of(range_parts@) =~= seq!["path"@, id@]);
        let time_parts = ["path", now.as_str(), id.as_str()];
        assert(strs_of(time_parts@) =~= seq!["path"@, now@, id@]);
        Node {
            hash: make_range(&hash_parts),
            range: make_range(&range_parts),
            range_time: make_range(&time_parts),
            class: owned("path"),
            client: Some(client.duplicate()),
            bot_id: Some(client.bot_id.clone()),
            channel_id: Some(client.channel_id.clone()),
            user_id: Some(client.user_id.clone()),
            conversation_id: conversation_id.to_string(),
            interaction_id: interaction_id.to_string(),
            flow_id: flow_id.to_string(),
            step_id: step_id.to_string(),
            next_flow,
            next_step,
            created_at: now,
            id,
        }
    }
}

#[derive(Debug)]
pub struct StatDeleteInfo {
    pub _type: String,
    pub key: String,
}

#[derive(Debug)]
pub struct State {
    pub hash: String,
    pub range: String,
    pub class: String,
    pub id: String,
    pub client: Option<Client>,
    pub bot_id: Option<String>,
    pub channel_id: Option<String>,
    pub user_id: Option<String>,
    pub _type: String,
    pub key: String,
    pub value: String,
    pub expires_at: Option<String>,
    pub created_at: String,
}

impl State {
    pub fn get_hash(client: &Client) -> (r: String)
        ensures
            r@ == client_hash(*client),
    {
        make_hash(client)
    }

    pub fn get_range(_type: &str, key: &str) -> (r: String)
        ensures
            r@ == join_spec(seq!["state"@, _type@, key@]),
    {
        let parts = ["state", _type, key];
        assert(strs_of(parts@) =~= seq!["state"@, _type@, key@]);
        make_range(&parts)
    }

    /// A state record (such as the hold position) of `client`.
    pub fn new(client: &Client, _type: &str, key: &str, encrypted_value: &str) -> (r: State)
        ensures
            r.hash@ == client_hash(*client),
            r.range@ == join_spec(seq!["state"@, _type@, key@]),
            r.class@ == "state"@,
            r.id@.len() == 36,
            same_client(r.client, *client),
            r.bot_id == Some(client.bot_id),
            r.channel_id == Some(client.channel_id),
            r.user_id == Some(client.user_id),
            r._type@ == _type@,
            r.key@ == key@,
            r.value@ == encrypted_value@,
            r.expires_at is None,
    {
        let id = new_uuid();
        let now = get_date_time();
        State {
            hash: Self::get_hash(client),
            range: Self::get_range(_type, key),
            class: owned("state"),
            id,
            client: Some(client.duplicate()),
            bot_id: Some(client.bot_id.clone()),
            channel_id: Some(client.channel_id.clone()),
            user_id: Some(client.user_id.clone()),
            _type: _type.to_string(),
            key: key.to_string(),
            value: encrypted_value.to_string(),
            expires_at: None,
            created_at: now,
        }
    }
}

#[derive(Debug)]
pub struct Class {
    pub class: String,
    pub hash: String,
    pub range: String,
}

} // verus!
