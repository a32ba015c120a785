//! An allow-list: a capacity-checked set of member addresses with a minting
//! window, administered by the account that set it up.
use vstd::prelude::*;
use crate::members::{
    addrs, contains_addr, first_after, insert_sorted, lex_lt, key, position, remove_at, sorted,
    sorted_dedup, sorted_dedup_of,
};
use crate::state::Coin;

verus! {

pub const CONTRACT_NAME: &'static str = "crates.io:passage-whitelist";
pub const CONTRACT_VERSION: &'static str = "0.1.0";
pub const PAGINATION_DEFAULT_LIMIT: u32 = 25;
pub const PAGINATION_MAX_LIMIT: u32 = 100;

/// The settings of an allow-list; times are in nanoseconds.
#[derive(Clone, Debug)]
pub struct Config {
    pub admin: String,
    pub start_time: u64,
    pub end_time: u64,
    pub num_members: u32,
    pub unit_price: Coin,
    pub per_address_limit: u32,
    pub member_limit: u32,
}

/// A capacity-checked set of member addresses, kept in ascending byte order.
#[derive(Clone, Debug)]
pub struct Whitelist {
    pub config: Config,
    pub members: Vec<String>,
}

#[derive(Clone, Debug)]
pub struct InstantiateMsg {
    pub members: Vec<String>,
    pub start_time: u64,
    pub end_time: u64,
    pub unit_price: Coin,
    pub per_address_limit: u32,
    pub member_limit: u32,
}

#[derive(Clone, Debug, PartialEq, Eq)]
pub struct Attribute {
    pub key: String,
    pub value: String,
}

/// What a successful call reports.
#[derive(Clone, Debug)]
pub struct Response {
    pub attributes: Vec<Attribute>,
}

#[derive(Clone, Debug, PartialEq, Eq)]
pub struct ConfigResponse {
    pub num_members: u32,
    pub per_address_limit: u32,
    pub member_limit: u32,
    pub start_time: u64,
    pub end_time: u64,
    pub unit_price: Coin,
    pub is_active: bool,
}

#[derive(Clone, Debug, PartialEq, Eq)]
pub enum WhitelistError {
    Unauthorized,
    AlreadyStarted,
    /// The start time (first) is not before the second time.
    InvalidStartTime(u64, u64),
    /// The end time (first) is before the start time (second).
    InvalidEndTime(u64, u64),
    InvalidMemberLimit { min: u32, got: u32 },
    InvalidUnitPrice(u128),
    InvalidPerAddressLimit { got: u32 },
    MembersExceeded { expected: u32, actual: u32 },
    DuplicateMember(String),
    NoMemberFound(String),
}

#[derive(Clone, Debug)]
pub struct AddMembersMsg {
    pub to_add: Vec<String>,
}

#[derive(Clone, Debug)]
pub struct RemoveMembersMsg {
    pub to_remove: Vec<String>,
}

pub enum QueryMsg {
    Members { start_after: Option<String>, limit: Option<u32> },
    HasStarted,
    HasEnded,
    IsActive,
    HasMember { member: String },
    Config,
}

/// The answer to a `QueryMsg`, variant for variant.
pub enum QueryResponse {
    Members(Vec<String>),
    HasStarted(bool),
    HasEnded(bool),
    IsActive(bool),
    HasMember(bool),
    Config(ConfigResponse),
}

pub enum ExecuteMsg {
    UpdateStartTime(u64),
    UpdateEndTime(u64),
    AddMembers(AddMembersMsg),
    RemoveMembers(RemoveMembersMsg),
    UpdatePerAddressLimit(u32),
    IncreaseMemberLimit(u32),
}

/// A count as a `u32`, saturating.
pub open spec fn count_u32(n: int) -> u32 {
    if n > u32::MAX { u32::MAX } else { n as u32 }
}

pub open spec fn instantiate_check(now: u64, msg: InstantiateMsg, count: int) -> Result<(), WhitelistError> {
    if msg.member_limit == 0 {
        Err(WhitelistError::InvalidMemberLimit { min: 1, got: 0 })
    } else if msg.unit_price.amount == 0 {
        Err(WhitelistError::InvalidUnitPrice(0))
    } else if msg.per_address_limit == 0 {
        Err(WhitelistError::InvalidPerAddressLimit { got: 0 })
    } else if msg.start_time >= msg.end_time {
        Err(WhitelistError::InvalidStartTime(msg.start_time, msg.end_time))
    } else if now >= msg.start_time {
        Err(WhitelistError::InvalidStartTime(now, msg.start_time))
    } else if count > msg.member_limit {
        Err(WhitelistError::MembersExceeded { expected: msg.member_limit, actual: count_u32(count) })
    } else {
        Ok(())
    }
}

/// The first refusal met when the sorted `adds` join `members`, one by one
/// from position `k`: the list is full, or the address is already there.
pub open spec fn add_failure(adds: Seq<String>, members: Seq<String>, n: u32, limit: u32, k: int) -> Option<WhitelistError>
    decreases adds.len() - k,
{
    if k < 0 || k >= adds.len() {
        None
    } else if n + k >= limit {
        Some(WhitelistError::MembersExceeded { expected: limit, actual: (n + k) as u32 })
    } else if contains_addr(members, adds[k]@) {
        Some(WhitelistError::DuplicateMember(adds[k]))
    } else {
        add_failure(adds, members, n, limit, k + 1)
    }
}

/// The first refusal met when `to_remove` leaves `members`, in the given
/// order from position `k`: the address is not (or no longer) a member.
pub open spec fn remove_failure(to_remove: Seq<String>, members: Seq<String>, k: int) -> Option<WhitelistError>
    decreases to_remove.len() - k,
{
    if k < 0 || k >= to_remove.len() {
        None
    } else if !contains_addr(members, to_remove[k]@) || contains_addr(to_remove.take(k), to_remove[k]@) {
        Some(WhitelistError::NoMemberFound(to_remove[k]))
    } else {
        remove_failure(to_remove, members, k + 1)
    }
}

/// The response reports exactly the key/value pairs `kv`, in order.
pub open spec fn reports(r: Response, kv: Seq<(Seq<char>, Seq<char>)>) -> bool {
    &&& r.attributes@.len() == kv.len()
    &&& forall|i: int| 0 <= i < kv.len() ==> (#[trigger] r.attributes@[i]).key@ == kv[i].0 && r.attributes@[i].value@ == kv[i].1
}

impl Whitelist {
    pub open spec fn wf(self) -> bool {
        &&& sorted(self.members@)
        &&& self.config.num_members == self.members@.len()
        &&& self.config.num_members <= self.config.member_limit
    }

    pub open spec fn is_active_at(self, now: u64) -> bool {
        self.config.start_time <= now && now < self.config.end_time
    }

    pub open spec fn update_start_time_post(self, sender: String, now: u64, start_time: u64, r: Result<Response, WhitelistError>, post: Whitelist) -> bool {
        if sender@ != self.config.admin@ {
            r == Err::<Response, WhitelistError>(WhitelistError::Unauthorized) && post == self
        } else if now >= self.config.start_time {
            r == Err::<Response, WhitelistError>(WhitelistError::AlreadyStarted) && post == self
        } else if start_time > self.config.end_time {
            r == Err::<Response, WhitelistError>(WhitelistError::InvalidStartTime(start_time, self.config.end_time))
                && post == self
        } else {
            r matches Ok(resp) && reports(resp, seq![("action"@, "update_start_time"@), ("start_time"@, timestamp_text_of(start_time)), ("sender"@, sender@)])
                && post.config == (Config { start_time, ..self.config })
                && post.same_members(self)
        }
    }

    pub open spec fn update_end_time_post(self, sender: String, now: u64, end_time: u64, r: Result<Response, WhitelistError>, post: Whitelist) -> bool {
        if sender@ != self.config.admin@ {
            r == Err::<Response, WhitelistError>(WhitelistError::Unauthorized) && post == self
        } else if now >= self.config.start_time {
            r == Err::<Response, WhitelistError>(WhitelistError::AlreadyStarted) && post == self
        } else if end_time < self.config.start_time {
            r == Err::<Response, WhitelistError>(WhitelistError::InvalidEndTime(end_time, self.config.start_time))
                && post == self
        } else {
            r matches Ok(resp) && reports(resp, seq![("action"@, "update_end_time"@), ("end_time"@, timestamp_text_of(end_time)), ("sender"@, sender@)])
                && post.config == (Config { end_time, ..self.config })
                && post.same_members(self)
        }
    }

    pub open spec fn update_per_address_limit_post(self, sender: String, per_address_limit: u32, r: Result<Response, WhitelistError>, post: Whitelist) -> bool {
        if sender@ != self.config.admin@ {
            r == Err::<Response, WhitelistError>(WhitelistError::Unauthorized) && post == self
        } else {
            r matches Ok(resp) && reports(resp, seq![("action"@, "update_per_address_limit"@), ("per_address_limit"@, decimal(per_address_limit as nat))])
                && post.config == (Config { per_address_limit, ..self.config })
                && post.same_members(self)
        }
    }

    pub open spec fn increase_member_limit_post(self, member_limit: u32, r: Result<Response, WhitelistError>, post: Whitelist) -> bool {
        if member_limit <= self.config.member_limit {
            r == Err::<Response, WhitelistError>(WhitelistError::InvalidMemberLimit {
                min: self.config.member_limit,
                got: member_limit,
            }) && post == self
        } else {
            r matches Ok(resp) && reports(resp, seq![("action"@, "increase_member_limit"@), ("member_limit"@, decimal(member_limit as nat))])
                && post.config == (Config { member_limit, ..self.config })
                && post.same_members(self)
        }
    }

    /// Adding members: the new addresses, each once and in ascending order,
    /// join while there is room and none is already a member; the first
    /// refusal met cancels the whole call.
    pub open spec fn add_members_post(self, sender: String, to_add: Seq<String>, r: Result<Response, WhitelistError>, post: Whitelist) -> bool {
        if sender@ != self.config.admin@ {
            r == Err::<Response, WhitelistError>(WhitelistError::Unauthorized) && post == self
        } else {
            exists|adds: Seq<String>| #![auto] sorted_dedup_of(adds, to_add) && match add_failure(
                adds, self.members@, self.config.num_members, self.config.member_limit, 0) {
                Some(e) => r == Err::<Response, WhitelistError>(e) && post == self,
                None => {
                    &&& r matches Ok(resp) && reports(resp, seq![("action"@, "add_members"@), ("sender"@, sender@)])
                    &&& addrs(post.members@) == addrs(self.members@).union(addrs(adds))
                    &&& post.members@.len() == self.members@.len() + adds.len()
                    &&& post.config == (Config { num_members: post.config.num_members, ..self.config })
                },
            }
        }
    }

    /// Removing members, before the start only: each address must still be a
    /// member when its turn comes; the first refusal cancels the whole call.
    pub open spec fn remove_members_post(self, sender: String, now: u64, to_remove: Seq<String>, r: Result<Response, WhitelistError>, post: Whitelist) -> bool {
        if sender@ != self.config.admin@ {
            r == Err::<Response, WhitelistError>(WhitelistError::Unauthorized) && post == self
        } else if now >= self.config.start_time {
            r == Err::<Response, WhitelistError>(WhitelistError::AlreadyStarted) && post == self
        } else {
            match remove_failure(to_remove, self.members@, 0) {
                Some(e) => r == Err::<Response, WhitelistError>(e) && post == self,
                None => {
                    &&& r matches Ok(resp) && reports(resp, seq![("action"@, "remove_members"@), ("sender"@, sender@)])
                    &&& addrs(post.members@) == addrs(self.members@).difference(addrs(to_remove))
                    &&& post.members@.len() == self.members@.len() - to_remove.len()
                    &&& post.config == (Config { num_members: post.config.num_members, ..self.config })
                },
            }
        }
    }

    /// The same allow-list with other settings of `config` and the same members.
    pub open spec fn same_members(self, other: Whitelist) -> bool {
        self.members@ == other.members@ && self.config.num_members == other.config.num_members
    }
}

fn text(s: &str) -> (r: String)
    ensures
        r@ == s@,
{
    s.to_owned()
}

fn attribute(key: &str, value: String) -> (r: Attribute)
    ensures
        r.key@ == key@,
        r.value == value,
{
    Attribute { key: text(key), value }
}

pub open spec fn digit(d: int) -> char {
    seq!['0', '1', '2', '3', '4', '5', '6', '7', '8', '9'][d]
}

/// The decimal digits of `n`, without sign or leading zeros.
pub open spec fn decimal(n: nat) -> Seq<char>
    decreases n,
{
    if n < 10 {
        seq![digit(n as int)]
    } else {
        decimal(n / 10).push(digit((n % 10) as int))
    }
}

/// `s` with zeros in front, up to `width` characters.
pub open spec fn zero_padded(s: Seq<char>, width: nat) -> Seq<char> {
    if s.len() >= width {
        s
    } else {
        Seq::new((width - s.len()) as nat, |i: int| '0') + s
    }
}

/// A time in nanoseconds as whole seconds, a point, and nine digits of nanoseconds.
pub open spec fn timestamp_text_of(nanos: u64) -> Seq<char> {
    decimal((nanos / 1_000_000_000) as nat) + seq!['.'] + zero_padded(decimal((nanos % 1_000_000_000) as nat), 9)
}

/// Relies on the `Display` of cosmwasm_std's `Timestamp`, which writes
/// `{seconds}.{nanoseconds:09}`; used to report a time.
#[verifier::external_body]
fn timestamp_text(nanos: u64) -> (r: String)
    ensures
        r@ == timestamp_text_of(nanos),
{
    cosmwasm_std::Timestamp::from_nanos(nanos).to_string()
}

/// Relies on the `Display` of `u32`, which writes its decimal digits; used to
/// report a number.
#[verifier::external_body]
fn number_text(n: u32) -> (r: String)
    ensures
        r@ == decimal(n as nat),
{
    n.to_string()
}

/// Sets up an allow-list administered by `sender`; duplicate members count once.
pub fn instantiate(sender: &String, now: u64, msg: InstantiateMsg) -> (r: Result<(Whitelist, Response), WhitelistError>)
    ensures
        exists|adds: Seq<String>| #![auto] sorted_dedup_of(adds, msg.members@) && match instantiate_check(now, msg, adds.len() as int) {
            Err(e) => r == Err::<(Whitelist, Response), WhitelistError>(e),
            Ok(_) => r matches Ok((w, resp)) && {
                &&& w.wf()
                &&& w.members@ == adds
                &&& w.config.admin == *sender
                &&& w.config.start_time == msg.start_time
                &&& w.config.end_time == msg.end_time
                &&& w.config.unit_price == msg.unit_price
                &&& w.config.per_address_limit == msg.per_address_limit
                &&& w.config.member_limit == msg.member_limit
                &&& reports(resp, seq![("action"@, "instantiate"@), ("contract_name"@, CONTRACT_NAME@),
                    ("contract_version"@, CONTRACT_VERSION@), ("sender"@, sender@)])
            },
        },
{
    let adds = sorted_dedup(&msg.members);
    let ghost a = adds@;
    if msg.member_limit == 0 {
        return Err(WhitelistError::InvalidMemberLimit { min: 1, got: 0 });
    }
    if msg.unit_price.amount == 0 {
        return Err(WhitelistError::InvalidUnitPrice(0));
    }
    if msg.per_address_limit == 0 {
        return Err(WhitelistError::InvalidPerAddressLimit { got: 0 });
    }
    if msg.start_time >= msg.end_time {
        return Err(WhitelistError::InvalidStartTime(msg.start_time, msg.end_time));
    }
    if now >= msg.start_time {
        return Err(WhitelistError::InvalidStartTime(now, msg.start_time));
    }
    if adds.len() > msg.member_limit as usize {
        let actual: u32 = if adds.len() > u32::MAX as usize { u32::MAX } else { adds.len() as u32 };
        return Err(WhitelistError::MembersExceeded { expected: msg.member_limit, actual });
    }
    let config = Config {
        admin: sender.clone(),
        start_time: msg.start_time,
        end_time: msg.end_time,
        num_members: adds.len() as u32,
        unit_price: msg.unit_price,
        per_address_limit: msg.per_address_limit,
        member_limit: msg.member_limit,
    };
    let mut attributes: Vec<Attribute> = Vec::new();
    attributes.push(attribute("action", text("instantiate")));
    attributes.push(attribute("contract_name", text(CONTRACT_NAME)));
    attributes.push(attribute("contract_version", text(CONTRACT_VERSION)));
    attributes.push(attribute("sender", sender.clone()));
    Ok((Whitelist { config, members: adds }, Response { attributes }))
}

impl Whitelist {
    /// Moves the start before it has come, to a time not after the end.
    pub fn execute_update_start_time(&mut self, sender: &String, now: u64, start_time: u64) -> (r: Result<Response, WhitelistError>)
        requires
            old(self).wf(),
        ensures
            final(self).wf(),
            old(self).update_start_time_post(*sender, now, start_time, r, *final(self)),
    {
        if *sender != self.config.admin {
            return Err(WhitelistError::Unauthorized);
        }
        if now >= self.config.start_time {
            return Err(WhitelistError::AlreadyStarted);
        }
        if start_time > self.config.end_time {
            return Err(WhitelistError::InvalidStartTime(start_time, self.config.end_time));
        }
        self.config.start_time = start_time;
        let mut attributes: Vec<Attribute> = Vec::new();
        attributes.push(attribute("action", text("update_start_time")));
        attributes.push(attribute("start_time", timestamp_text(start_time)));
        attributes.push(attribute("sender", sender.clone()));
        Ok(Response { attributes })
    }

    /// Moves the end before the start has come, to a time not before the start.
    pub fn execute_update_end_time(&mut self, sender: &String, now: u64, end_time: u64) -> (r: Result<Response, WhitelistError>)
        requires
            old(self).wf(),
        ensures
            final(self).wf(),
            old(self).update_end_time_post(*sender, now, end_time, r, *final(self)),
    {
        if *sender != self.config.admin {
            return Err(WhitelistError::Unauthorized);
        }
        if now >= self.config.start_time {
            return Err(WhitelistError::AlreadyStarted);
        }
        if end_time < self.config.start_time {
            return Err(WhitelistError::InvalidEndTime(end_time, self.config.start_time));
        }
        self.config.end_time = end_time;
        let mut attributes: Vec<Attribute> = Vec::new();
        attributes.push(attribute("action", text("update_end_time")));
        attributes.push(attribute("end_time", timestamp_text(end_time)));
        attributes.push(attribute("sender", sender.clone()));
        Ok(Response { attributes })
    }

    /// Sets the number of mints each member is allowed.
    pub fn execute_update_per_address_limit(&mut self, sender: &String, per_address_limit: u32) -> (r: Result<Response, WhitelistError>)
        requires
            old(self).wf(),
        ensures
            final(self).wf(),
            old(self).update_per_address_limit_post(*sender, per_address_limit, r, *final(self)),
    {
        if *sender != self.config.admin {
            return Err(WhitelistError::Unauthorized);
        }
        self.config.per_address_limit = per_address_limit;
        let mut attributes: Vec<Attribute> = Vec::new();
        attributes.push(attribute("action", text("update_per_address_limit")));
        attributes.push(attribute("per_address_limit", number_text(per_address_limit)));
        Ok(Response { attributes })
    }

    /// Raises the capacity of the list; anyone may raise it.
    pub fn execute_increase_member_limit(&mut self, member_limit: u32) -> (r: Result<Response, WhitelistError>)
        requires
            old(self).wf(),
        ensures
            final(self).wf(),
            old(self).increase_member_limit_post(member_limit, r, *final(self)),
    {
        if self.config.member_limit >= member_limit {
            return Err(WhitelistError::InvalidMemberLimit { min: self.config.member_limit, got: member_limit });
        }
        self.config.member_limit = member_limit;
        let mut attributes: Vec<Attribute> = Vec::new();
        attributes.push(attribute("action", text("increase_member_limit")));
        attributes.push(attribute("member_limit", number_text(member_limit)));
        Ok(Response { attributes })
    }

    /// Whether the minting window has opened at `now`.
    pub fn query_has_started(&self, now: u64) -> (r: bool)
        ensures
            r == (now >= self.config.start_time),
    {
        now >= self.config.start_time
    }

    /// Whether the minting window has closed at `now`.
    pub fn query_has_ended(&self, now: u64) -> (r: bool)
        ensures
            r == (now >= self.config.end_time),
    {
        now >= self.config.end_time
    }

    /// Whether `now` lies in the minting window.
    pub fn query_is_active(&self, now: u64) -> (r: bool)
        ensures
            r == self.is_active_at(now),
    {
        now >= self.config.start_time && now < self.config.end_time
    }

    pub fn query_has_member(&self, member: &String) -> (r: bool)
        ensures
            r == contains_addr(self.members@, member@),
    {
        position(&self.members, member).is_some()
    }

    pub fn query_config(&self, now: u64) -> (r: ConfigResponse)
        ensures
            r.num_members == self.config.num_members,
            r.per_address_limit == self.config.per_address_limit,
            r.member_limit == self.config.member_limit,
            r.start_time == self.config.start_time,
            r.end_time == self.config.end_time,
            r.unit_price.amount == self.config.unit_price.amount,
            r.unit_price.denom@ == self.config.unit_price.denom@,
            r.is_active == self.is_active_at(now),
    {
        ConfigResponse {
            num_members: self.config.num_members,
            per_address_limit: self.config.per_address_limit,
            member_limit: self.config.member_limit,
            start_time: self.config.start_time,
            end_time: self.config.end_time,
            unit_price: Coin { denom: self.config.unit_price.denom.clone(), amount: self.config.unit_price.amount },
            is_active: self.query_is_active(now),
        }
    }
}

/// Where a page that starts after `a` begins: members up to `a` come before it.
pub open spec fn is_page_start(s: Seq<String>, a: String, j: int) -> bool {
    &&& 0 <= j <= s.len()
    &&& forall|i: int| 0 <= i < j ==> !lex_lt(key(a), key(#[trigger] s[i]))
    &&& forall|i: int| j <= i < s.len() ==> lex_lt(key(a), key(#[trigger] s[i]))
}

pub open spec fn page_start(s: Seq<String>, start_after: Option<String>) -> int {
    match start_after {
        None => 0,
        Some(a) => choose|j: int| is_page_start(s, a, j),
    }
}

/// The page size: 25 unless asked otherwise, and never more than 100.
pub open spec fn page_limit(limit: Option<u32>) -> int {
    let l = match limit {
        Some(l) => l as int,
        None => PAGINATION_DEFAULT_LIMIT as int,
    };
    if l > PAGINATION_MAX_LIMIT { PAGINATION_MAX_LIMIT as int } else { l }
}

pub open spec fn min_int(a: int, b: int) -> int {
    if a < b { a } else { b }
}

/// Whether `v[k]` already occurs before position `k`.
fn seen_before(v: &Vec<String>, k: usize) -> (r: bool)
    requires
        k < v@.len(),
    ensures
        r == contains_addr(v@.take(k as int), v@[k as int]@),
{
    let mut i: usize = 0;
    while i < k
        invariant
            i <= k < v@.len(),
            forall|j: int| 0 <= j < i ==> (#[trigger] v@[j])@ != v@[k as int]@,
        decreases k - i,
    {
        if v[i] == v[k] {
            assert(v@.take(k as int)[i as int] == v@[i as int]);
            return true;
        }
        i = i + 1;
    }
    proof {
        if contains_addr(v@.take(k as int), v@[k as int]@) {
            let j = choose|j: int| 0 <= j < k && (#[trigger] v@.take(k as int)[j])@ == v@[k as int]@;
            assert(v@.take(k as int)[j] == v@[j]);
        }
    }
    false
}

impl Whitelist {
    /// Adds members: see `add_members_post`.
    pub fn execute_add_members(&mut self, sender: &String, msg: AddMembersMsg) -> (r: Result<Response, WhitelistError>)
        requires
            old(self).wf(),
        ensures
            final(self).wf(),
            old(self).add_members_post(*sender, msg.to_add@, r, *final(self)),
    {
        if *sender != self.config.admin {
            return Err(WhitelistError::Unauthorized);
        }
        let adds = sorted_dedup(&msg.to_add);
        let ghost m = self.members@;
        let n = self.config.num_members;
        let limit = self.config.member_limit;
        let ghost pre0 = *self;
        assert(sorted_dedup_of(adds@, msg.to_add@));
        let mut k: usize = 0;
        while k < adds.len()
            invariant
                *self == pre0,
                pre0 == *old(self),
                pre0.wf(),
                sender@ == pre0.config.admin@,
                limit == pre0.config.member_limit,
                sorted_dedup_of(adds@, msg.to_add@),
                k <= adds@.len(),
                n as int + k <= limit,
                self.members@ == m,
                n == self.config.num_members,
                add_failure(adds@, m, n, limit, 0) == add_failure(adds@, m, n, limit, k as int),
                forall|j: int| 0 <= j < k ==> !contains_addr(m, (#[trigger] adds@[j])@) && n + j < limit,
            decreases adds@.len() - k,
        {
            if n as usize + k >= limit as usize {
                assert(add_failure(adds@, m, n, limit, k as int)
                    == Some(WhitelistError::MembersExceeded { expected: limit, actual: (n + k) as u32 }));
                return Err(WhitelistError::MembersExceeded { expected: limit, actual: n + k as u32 });
            }
            if position(&self.members, &adds[k]).is_some() {
                assert(add_failure(adds@, m, n, limit, k as int) == Some(WhitelistError::DuplicateMember(adds@[k as int])));
                return Err(WhitelistError::DuplicateMember(adds[k].clone()));
            }
            k = k + 1;
        }
        let ghost pre = *self;
        let mut k: usize = 0;
        while k < adds.len()
            invariant
                k <= adds@.len(),
                sorted(self.members@),
                sorted(adds@),
                self.members@.len() == m.len() + k,
                self.config == pre.config,
                m == pre.members@,
                forall|j: int| 0 <= j < adds@.len() ==> !contains_addr(m, (#[trigger] adds@[j])@),
                forall|x: Seq<char>| contains_addr(self.members@, x) <==> (contains_addr(m, x) || contains_addr(adds@.take(k as int), x)),
            decreases adds@.len() - k,
        {
            proof {
                if contains_addr(self.members@, adds@[k as int]@) {
                    if !contains_addr(m, adds@[k as int]@) {
                        let j = choose|j: int| 0 <= j < k && (#[trigger] adds@.take(k as int)[j])@ == adds@[k as int]@;
                        assert(adds@.take(k as int)[j] == adds@[j]);
                        crate::members::lemma_sorted_unique(adds@, j, k as int);
                    }
                }
            }
            let ghost before = self.members@;
            insert_sorted(&mut self.members, adds[k].clone());
            proof {
                let t = adds@.take(k as int + 1);
                assert(t =~= adds@.take(k as int).push(adds@[k as int]));
                assert forall|x: Seq<char>| contains_addr(self.members@, x) <==> (contains_addr(m, x) || contains_addr(t, x)) by {
                    if contains_addr(t, x) {
                        let j = choose|j: int| 0 <= j < t.len() && (#[trigger] t[j])@ == x;
                        if j < k {
                            assert(adds@.take(k as int)[j] == t[j]);
                        }
                    }
                    if contains_addr(adds@.take(k as int), x) {
                        let j = choose|j: int| 0 <= j < k && (#[trigger] adds@.take(k as int)[j])@ == x;
                        assert(t[j] == adds@.take(k as int)[j]);
                    }
                    if x == adds@[k as int]@ {
                        assert(t[k as int] == adds@[k as int]);
                    }
                    assert(contains_addr(self.members@, x) <==> (contains_addr(before, x) || x == adds@[k as int]@));
                }
            }
            k = k + 1;
        }
        proof {
            assert(adds@.take(adds@.len() as int) =~= adds@);
            assert(addrs(self.members@) =~= addrs(m).union(addrs(adds@)));
            if adds@.len() > 0 {
                assert(n + (adds@.len() - 1) < limit);
            }
        }
        self.config.num_members = n + adds.len() as u32;
        let mut attributes: Vec<Attribute> = Vec::new();
        attributes.push(attribute("action", text("add_members")));
        attributes.push(attribute("sender", sender.clone()));
        Ok(Response { attributes })
    }

    /// Removes members: see `remove_members_post`.
    pub fn execute_remove_members(&mut self, sender: &String, now: u64, msg: RemoveMembersMsg) -> (r: Result<Response, WhitelistError>)
        requires
            old(self).wf(),
        ensures
            final(self).wf(),
            old(self).remove_members_post(*sender, now, msg.to_remove@, r, *final(self)),
    {
        if *sender != self.config.admin {
            return Err(WhitelistError::Unauthorized);
        }
        if now >= self.config.start_time {
            return Err(WhitelistError::AlreadyStarted);
        }
        let ghost m = self.members@;
        let ghost pre0 = *self;
        let rm = &msg.to_remove;
        let mut k: usize = 0;
        while k < rm.len()
            invariant
                *self == pre0,
                pre0 == *old(self),
                pre0.wf(),
                sender@ == pre0.config.admin@,
                now < pre0.config.start_time,
                rm@ == msg.to_remove@,
                k <= rm@.len(),
                self.members@ == m,
                remove_failure(rm@, m, 0) == remove_failure(rm@, m, k as int),
                forall|j: int| 0 <= j < k ==> contains_addr(m, (#[trigger] rm@[j])@) && !contains_addr(rm@.take(j), rm@[j]@),
            decreases rm@.len() - k,
        {
            if position(&self.members, &rm[k]).is_none() || seen_before(rm, k) {
                assert(remove_failure(rm@, m, k as int) == Some(WhitelistError::NoMemberFound(rm@[k as int])));
                return Err(WhitelistError::NoMemberFound(rm[k].clone()));
            }
            k = k + 1;
        }
        let ghost pre = *self;
        let mut k: usize = 0;
        while k < rm.len()
            invariant
                k <= rm@.len(),
                sorted(self.members@),
                self.members@.len() == m.len() - k,
                self.config == pre.config,
                m == pre.members@,
                m.len() == pre.config.num_members,
                forall|j: int| 0 <= j < rm@.len() ==> contains_addr(m, (#[trigger] rm@[j])@) && !contains_addr(rm@.take(j), rm@[j]@),
                addrs(self.members@) == addrs(m).difference(addrs(rm@.take(k as int))),
            decreases rm@.len() - k,
        {
            proof {
                assert(addrs(m).contains(rm@[k as int]@));
                if addrs(rm@.take(k as int)).contains(rm@[k as int]@) {
                    let j = choose|j: int| 0 <= j < k && (#[trigger] rm@.take(k as int)[j])@ == rm@[k as int]@;
                    assert(rm@.take(k as int)[j] == rm@[j]);
                    assert(rm@.take(j) =~= rm@.take(k as int).take(j));
                    assert(rm@.take(k as int) =~= rm@.take(k as int));
                    assert(contains_addr(rm@.take(k as int), rm@[k as int]@));
                    assert(false);
                }
                assert(addrs(self.members@).contains(rm@[k as int]@));
                assert(self.members@.len() > 0);
            }
            let i = match position(&self.members, &rm[k]) {
                Some(i) => i,
                None => {
                    assert(false);
                    0
                },
            };
            remove_at(&mut self.members, i);
            proof {
                let t = rm@.take(k as int + 1);
                assert(t =~= rm@.take(k as int).push(rm@[k as int]));
                assert forall|x: Seq<char>| #[trigger] addrs(t).contains(x) <==> (addrs(rm@.take(k as int)).contains(x) || x == rm@[k as int]@) by {
                    if contains_addr(t, x) {
                        let j = choose|j: int| 0 <= j < t.len() && (#[trigger] t[j])@ == x;
                        if j < k {
                            assert(rm@.take(k as int)[j] == t[j]);
                        }
                    }
                    if contains_addr(rm@.take(k as int), x) {
                        let j = choose|j: int| 0 <= j < k && (#[trigger] rm@.take(k as int)[j])@ == x;
                        assert(t[j] == rm@.take(k as int)[j]);
                    }
                    if x == rm@[k as int]@ {
                        assert(t[k as int] == rm@[k as int]);
                    }
                }
                assert(addrs(self.members@) =~= addrs(m).difference(addrs(t)));
            }
            k = k + 1;
        }
        proof {
            assert(rm@.take(rm@.len() as int) =~= rm@);
        }
        self.config.num_members = self.config.num_members - rm.len() as u32;
        let mut attributes: Vec<Attribute> = Vec::new();
        attributes.push(attribute("action", text("remove_members")));
        attributes.push(attribute("sender", sender.clone()));
        Ok(Response { attributes })
    }

    /// One page of members in ascending order: those after `start_after`, at
    /// most `page_limit(limit)` of them.
    pub fn query_members(&self, start_after: Option<String>, limit: Option<u32>) -> (r: Vec<String>)
        requires
            self.wf(),
        ensures
            r@ == self.members@.subrange(
                page_start(self.members@, start_after),
                min_int(page_start(self.members@, start_after) + page_limit(limit), self.members@.len() as int),
            ),
    {
        let l: u32 = match limit {
            Some(l) => l,
            None => PAGINATION_DEFAULT_LIMIT,
        };
        let l: usize = if l > PAGINATION_MAX_LIMIT { PAGINATION_MAX_LIMIT as usize } else { l as usize };
        let start: usize = match &start_after {
            Some(a) => {
                let j = first_after(&self.members, a);
                proof {
                    let c = choose|c: int| is_page_start(self.members@, *a, c);
                    assert(is_page_start(self.members@, *a, j as int));
                    if c < j {
                        assert(lex_lt(key(*a), key(self.members@[c])));
                    } else if c > j {
                        assert(lex_lt(key(*a), key(self.members@[j as int])));
                    }
                }
                j
            },
            None => 0,
        };
        let end: usize = if l < self.members.len() - start { start + l } else { self.members.len() };
        let mut out: Vec<String> = Vec::new();
        let mut i: usize = start;
        while i < end
            invariant
                start <= i <= end <= self.members@.len(),
                out@ == self.members@.subrange(start as int, i as int),
            decreases end - i,
        {
            out.push(self.members[i].clone());
            assert(out@ =~= self.members@.subrange(start as int, i as int + 1));
            i = i + 1;
        }
        out
    }

    /// Runs one allow-list operation for `sender` at time `now`.
    pub fn execute(&mut self, sender: &String, now: u64, msg: ExecuteMsg) -> (r: Result<Response, WhitelistError>)
        requires
            old(self).wf(),
        ensures
            final(self).wf(),
            match msg {
                ExecuteMsg::UpdateStartTime(t) => old(self).update_start_time_post(*sender, now, t, r, *final(self)),
                ExecuteMsg::UpdateEndTime(t) => old(self).update_end_time_post(*sender, now, t, r, *final(self)),
                ExecuteMsg::AddMembers(m) => old(self).add_members_post(*sender, m.to_add@, r, *final(self)),
                ExecuteMsg::RemoveMembers(m) => old(self).remove_members_post(*sender, now, m.to_remove@, r, *final(self)),
                ExecuteMsg::UpdatePerAddressLimit(l) => old(self).update_per_address_limit_post(*sender, l, r, *final(self)),
                ExecuteMsg::IncreaseMemberLimit(l) => old(self).increase_member_limit_post(l, r, *final(self)),
            },
    {
        match msg {
            ExecuteMsg::UpdateStartTime(t) => self.execute_update_start_time(sender, now, t),
            ExecuteMsg::UpdateEndTime(t) => self.execute_update_end_time(sender, now, t),
            ExecuteMsg::AddMembers(m) => self.execute_add_members(sender, m),
            ExecuteMsg::RemoveMembers(m) => self.execute_remove_members(sender, now, m),
            ExecuteMsg::UpdatePerAddressLimit(l) => self.execute_update_per_address_limit(sender, l),
            ExecuteMsg::IncreaseMemberLimit(l) => self.execute_increase_member_limit(l),
        }
    }
}

impl Whitelist {
    /// Answers one query at time `now`.
    pub fn query(&self, now: u64, msg: QueryMsg) -> (r: QueryResponse)
        requires
            self.wf(),
        ensures
            match (msg, r) {
                (QueryMsg::Members { start_after, limit }, QueryResponse::Members(m)) => m@ == self.members@.subrange(
                    page_start(self.members@, start_after),
                    min_int(page_start(self.members@, start_after) + page_limit(limit), self.members@.len() as int),
                ),
                (QueryMsg::HasStarted, QueryResponse::HasStarted(b)) => b == (now >= self.config.start_time),
                (QueryMsg::HasEnded, QueryResponse::HasEnded(b)) => b == (now >= self.config.end_time),
                (QueryMsg::IsActive, QueryResponse::IsActive(b)) => b == self.is_active_at(now),
                (QueryMsg::HasMember { member }, QueryResponse::HasMember(b)) => b == contains_addr(self.members@, member@),
                (QueryMsg::Config, QueryResponse::Config(c)) => {
                    &&& c.num_members == self.config.num_members
                    &&& c.per_address_limit == self.config.per_address_limit
                    &&& c.member_limit == self.config.member_limit
                    &&& c.start_time == self.config.start_time
                    &&& c.end_time == self.config.end_time
                    &&& c.unit_price.amount == self.config.unit_price.amount
                    &&& c.unit_price.denom@ == self.config.unit_price.denom@
                    &&& c.is_active == self.is_active_at(now)
                },
                _ => false,
            },
    {
        match msg {
            QueryMsg::Members { start_after, limit } => QueryResponse::Members(self.query_members(start_after, limit)),
            QueryMsg::HasStarted => QueryResponse::HasStarted(self.query_has_started(now)),
            QueryMsg::HasEnded => QueryResponse::HasEnded(self.query_has_ended(now)),
            QueryMsg::IsActive => QueryResponse::IsActive(self.query_is_active(now)),
            QueryMsg::HasMember { member } => QueryResponse::HasMember(self.query_has_member(&member)),
            QueryMsg::Config => QueryResponse::Config(self.query_config(now)),
        }
    }
}

} // verus!
