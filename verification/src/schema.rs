//! The schema of the configuration file: which JSON documents stand for a
//! configuration, and the document that a configuration is written as.
//!
//! A configuration is an object with the member `updated_at`, an integer,
//! and the member `profiles`, an object that maps each profile name to an
//! object with `host`, a non-empty text, and optionally `user`, a text, and
//! `port`, an integer from 0 to 65535. A missing or null `user` or `port`
//! stands for none. Members of other names are ignored. None of
//! `profiles`, `updated_at`, `host`, `user` and `port` may occur twice in
//! its object; of two profiles of one name the later one counts.

use crate::config::{Config, ConfigView};
use crate::failure::{Failure, FailureView};
use crate::json::{
    integral, json_parse, json_text, lemma_object_view, members_view, parse_document,
    render_document, Json, JsonView,
};
use crate::profile::{optional_text, HostConfig, HostConfigView};
use crate::store::{
    all_valid, as_map, ascending, lemma_insert, lemma_sorted_holds, sorted, valid_profiles, Listing,
    ProfileStore,
};
use crate::text::text_eq;
use vstd::prelude::*;

verus! {

/// The members of an object.
pub type Members = Seq<(Seq<char>, JsonView)>;

/// What an object holds under a name.
pub enum SlotView {
    /// No member has the name.
    Absent,
    /// One member has the name, with this value.
    Once(JsonView),
    /// Two or more members have the name.
    Repeated,
}

/// What the members hold under the given name.
pub open spec fn lookup(members: Members, name: Seq<char>) -> SlotView
    decreases members.len(),
{
    if members.len() == 0 {
        SlotView::Absent
    } else if members.last().0 == name {
        match lookup(members.drop_last(), name) {
            SlotView::Absent => SlotView::Once(members.last().1),
            _ => SlotView::Repeated,
        }
    } else {
        lookup(members.drop_last(), name)
    }
}

/// The integer that a document holds, if it is one.
pub open spec fn integer(doc: JsonView) -> Option<int> {
    match doc {
        JsonView::Unsigned(number) => Some(number as int),
        JsonView::Signed(number) => Some(number as int),
        _ => None,
    }
}

/// The document of an integer: `Signed` below zero, `Unsigned` from zero on.
pub open spec fn encode_integer(number: i64) -> JsonView {
    if number < 0 {
        JsonView::Signed(number)
    } else {
        JsonView::Unsigned(number as u64)
    }
}

/// Reads an optional text member: absent or null is no text. `None` where
/// the member holds anything else or occurs twice.
pub open spec fn decode_user(slot: SlotView) -> Option<Option<Seq<char>>> {
    match slot {
        SlotView::Absent => Some(None),
        SlotView::Once(JsonView::Null) => Some(None),
        SlotView::Once(JsonView::Text(text)) => Some(Some(text)),
        _ => None,
    }
}

/// Reads an optional port member: absent or null is no port. `None` where
/// the member holds anything but an integer from 0 to 65535, or occurs
/// twice.
pub open spec fn decode_port(slot: SlotView) -> Option<Option<u16>> {
    match slot {
        SlotView::Absent => Some(None),
        SlotView::Once(JsonView::Null) => Some(None),
        SlotView::Once(doc) => match integer(doc) {
            Some(number) => if 0 <= number <= u16::MAX {
                Some(Some(number as u16))
            } else {
                None
            },
            None => None,
        },
        SlotView::Repeated => None,
    }
}

/// Reads the host, which must be there once, as a text that is not empty.
pub open spec fn decode_name(slot: SlotView) -> Option<Seq<char>> {
    match slot {
        SlotView::Once(JsonView::Text(host)) => if host.len() > 0 {
            Some(host)
        } else {
            None
        },
        _ => None,
    }
}

/// Reads the time of the last save, which must be there once and fit 64
/// bits.
pub open spec fn decode_stamp(slot: SlotView) -> Option<i64> {
    match slot {
        SlotView::Once(doc) => match integer(doc) {
            Some(number) => if i64::MIN <= number <= i64::MAX {
                Some(number as i64)
            } else {
                None
            },
            None => None,
        },
        _ => None,
    }
}

/// The profile that a document stands for, if it stands for one.
pub open spec fn decode_host(doc: JsonView) -> Option<HostConfigView> {
    match doc {
        JsonView::Object(members) => match (
            decode_name(lookup(members, "host"@)),
            decode_user(lookup(members, "user"@)),
            decode_port(lookup(members, "port"@)),
        ) {
            (Some(host), Some(user), Some(port)) => Some(HostConfigView { host, user, port }),
            _ => None,
        },
        _ => None,
    }
}

/// The mapping that the members of a `profiles` object stand for: each
/// member must stand for a profile, and of two members of one name the
/// later one counts.
pub open spec fn decode_profiles(members: Members) -> Option<Map<Seq<char>, HostConfigView>>
    decreases members.len(),
{
    if members.len() == 0 {
        Some(Map::empty())
    } else {
        match (decode_profiles(members.drop_last()), decode_host(members.last().1)) {
            (Some(profiles), Some(host)) => Some(profiles.insert(members.last().0, host)),
            _ => None,
        }
    }
}

/// Reads the `profiles` member, which must be there once, as an object.
pub open spec fn decode_store(slot: SlotView) -> Option<Map<Seq<char>, HostConfigView>> {
    match slot {
        SlotView::Once(JsonView::Object(members)) => decode_profiles(members),
        _ => None,
    }
}

/// The configuration that a document stands for, if it stands for one.
pub open spec fn decode_config(doc: JsonView) -> Option<ConfigView> {
    match doc {
        JsonView::Object(members) => match (
            decode_store(lookup(members, "profiles"@)),
            decode_stamp(lookup(members, "updated_at"@)),
        ) {
            (Some(profiles), Some(updated_at)) => Some(ConfigView { profiles, updated_at }),
            _ => None,
        },
        _ => None,
    }
}

/// The members that a profile is written as: `host`, then `port` and
/// `user` where they are set.
pub open spec fn encode_host_members(host: HostConfigView) -> Members {
    seq![("host"@, JsonView::Text(host.host))] + (match host.port {
        Some(port) => seq![("port"@, JsonView::Unsigned(port as u64))],
        None => seq![],
    }) + (match host.user {
        Some(user) => seq![("user"@, JsonView::Text(user))],
        None => seq![],
    })
}

/// The document that a profile is written as.
pub open spec fn encode_host(host: HostConfigView) -> JsonView {
    JsonView::Object(encode_host_members(host))
}

/// The members that a listing is written as: one for each profile, in the
/// order of the listing.
pub open spec fn encode_profiles(list: Listing) -> Members {
    Seq::new(list.len(), |i: int| (list[i].0, encode_host(list[i].1)))
}

/// The document that a configuration is written as: `profiles`, in
/// ascending order of their names, then `updated_at`.
pub open spec fn encode_config(config: ConfigView) -> JsonView {
    JsonView::Object(
        seq![
            ("profiles"@, JsonView::Object(encode_profiles(sorted(config.profiles)))),
            ("updated_at"@, encode_integer(config.updated_at)),
        ],
    )
}

/// What a configuration is written as holds no number but integers.
pub proof fn lemma_encode_integral(config: ConfigView)
    ensures
        integral(encode_config(config)),
{
    let list = sorted(config.profiles);
    let named = encode_profiles(list);
    assert forall|i: int| 0 <= i < named.len() implies integral((#[trigger] named[i]).1) by {
        let members = encode_host_members(list[i].1);
        assert forall|j: int| 0 <= j < members.len() implies integral((#[trigger] members[j]).1) by {
            assert(members[j].1 is Text || members[j].1 is Unsigned);
        }
        assert(integral(encode_host(list[i].1)));
    }
    assert(integral(JsonView::Object(named)));
    let members = seq![("profiles"@, JsonView::Object(named)), ("updated_at"@, encode_integer(config.updated_at))];
    assert forall|j: int| 0 <= j < members.len() implies integral((#[trigger] members[j]).1) by {
        assert(j == 0 || j == 1);
    }
}

/// The names of the members are different texts.
proof fn lemma_names_differ()
    ensures
        "host"@ != "port"@,
        "host"@ != "user"@,
        "port"@ != "user"@,
        "profiles"@ != "updated_at"@,
{
    reveal_strlit("host");
    reveal_strlit("port");
    reveal_strlit("user");
    reveal_strlit("profiles");
    reveal_strlit("updated_at");
    assert("host"@[0] == 'h' && "port"@[0] == 'p' && "user"@[0] == 'u');
    assert("profiles"@[0] == 'p' && "updated_at"@[0] == 'u');
}

/// Reading what a profile is written as gives the profile back.
pub proof fn lemma_host_round_trip(host: HostConfigView)
    requires
        host.valid(),
    ensures
        decode_host(encode_host(host)) == Some(host),
{
    lemma_names_differ();
    reveal_with_fuel(lookup, 4);
    if let (Some(port), Some(user)) = (host.port, host.user) {
        assert(encode_host_members(host) =~= seq![
            ("host"@, JsonView::Text(host.host)),
            ("port"@, JsonView::Unsigned(port as u64)),
            ("user"@, JsonView::Text(user)),
        ]);
    }
}

/// Reading what a listing is written as gives the mapping of the listing.
pub proof fn lemma_profiles_round_trip(list: Listing)
    requires
        ascending(list),
        all_valid(list),
    ensures
        decode_profiles(encode_profiles(list)) == Some(as_map(list)),
    decreases list.len(),
{
    if list.len() > 0 {
        let rest = list.drop_last();
        let last = list.last();
        assert(encode_profiles(list).drop_last() =~= encode_profiles(rest));
        assert(list =~= rest.insert(rest.len() as int, last));
        lemma_profiles_round_trip(rest);
        lemma_host_round_trip(last.1);
        lemma_insert(rest, rest.len() as int, last.0, last.1);
    }
}

/// Reading what a configuration is written as gives the configuration
/// back: the same profiles under the same names, and the same time.
pub proof fn lemma_config_round_trip(config: ConfigView)
    requires
        valid_profiles(config.profiles),
    ensures
        decode_config(encode_config(config)) == Some(config),
{
    let list = sorted(config.profiles);
    lemma_sorted_holds(config.profiles);
    lemma_names_differ();
    lemma_profiles_round_trip(list);
    reveal_with_fuel(lookup, 3);
}

/// Where the members up to some place stand for no mapping, all of them
/// stand for none.
proof fn lemma_decode_profiles_prefix(members: Members, upto: int)
    requires
        0 <= upto <= members.len(),
        decode_profiles(members.take(upto)) is None,
    ensures
        decode_profiles(members) is None,
    decreases members.len(),
{
    if upto == members.len() {
        assert(members.take(upto) =~= members);
    } else {
        assert(members.drop_last().take(upto) =~= members.take(upto));
        lemma_decode_profiles_prefix(members.drop_last(), upto);
    }
}

/// What a text stands for: the configuration of the document that is read
/// from it.
pub open spec fn decode_text(text: Seq<char>) -> Option<ConfigView> {
    match json_parse(text) {
        Some(doc) => decode_config(doc),
        None => None,
    }
}

/// The text that a configuration is written as: the text of its document,
/// provided that the text stands for the configuration again. There is none
/// where no text is written or the text stands for something else.
pub open spec fn encode_text(config: ConfigView) -> Option<Seq<char>> {
    match json_text(encode_config(config)) {
        Some(text) => if decode_text(text) == Some(config) {
            Some(text)
        } else {
            None
        },
        None => None,
    }
}

/// Reading the text that a configuration is written as gives the
/// configuration back.
pub proof fn lemma_text_round_trip(config: ConfigView)
    ensures
        encode_text(config) matches Some(text) ==> decode_text(text) == Some(config),
{
}

/// What an object holds under a name.
enum Slot<'a> {
    Absent,
    Once(&'a Json),
    Repeated,
}

impl<'a> View for Slot<'a> {
    type V = SlotView;

    closed spec fn view(&self) -> SlotView {
        match self {
            Slot::Absent => SlotView::Absent,
            Slot::Once(doc) => SlotView::Once(doc@),
            Slot::Repeated => SlotView::Repeated,
        }
    }
}

/// Looks a name up among the members of an object.
fn find<'a>(members: &'a Vec<(String, Json)>, name: &str) -> (slot: Slot<'a>)
    ensures
        slot@ == lookup(members_view(members@), name@),
{
    let ghost all = members_view(members@);
    let mut slot = Slot::Absent;
    let mut at: usize = 0;
    while at < members.len()
        invariant
            at <= members@.len(),
            all == members_view(members@),
            slot@ == lookup(all.take(at as int), name@),
        decreases members@.len() - at,
    {
        assert(all.take(at + 1).drop_last() =~= all.take(at as int));
        if text_eq(members[at].0.as_str(), name) {
            slot = match slot {
                Slot::Absent => Slot::Once(&members[at].1),
                _ => Slot::Repeated,
            };
        }
        at = at + 1;
    }
    assert(all.take(at as int) =~= all);
    slot
}

/// Reads an optional text member.
fn user_from(slot: Slot) -> (read: Option<Option<String>>)
    ensures
        read is Some <==> decode_user(slot@) is Some,
        read matches Some(user) ==> decode_user(slot@) == Some(optional_text(user)),
{
    match slot {
        Slot::Absent => Some(None),
        Slot::Once(Json::Null) => Some(None),
        Slot::Once(Json::Text(text)) => Some(Some(text.clone())),
        _ => None,
    }
}

/// Reads an optional port member.
fn port_from(slot: Slot) -> (read: Option<Option<u16>>)
    ensures
        read == decode_port(slot@),
{
    match slot {
        Slot::Absent => Some(None),
        Slot::Once(Json::Null) => Some(None),
        Slot::Once(Json::Unsigned(number)) => if *number <= 65535 {
            Some(Some(*number as u16))
        } else {
            None
        },
        Slot::Once(Json::Signed(number)) => if 0 <= *number && *number <= 65535 {
            Some(Some(*number as u16))
        } else {
            None
        },
        _ => None,
    }
}

/// Reads the time of the last save.
fn stamp_from(slot: Slot) -> (read: Option<i64>)
    ensures
        read == decode_stamp(slot@),
{
    match slot {
        Slot::Once(Json::Unsigned(number)) => if *number <= 9223372036854775807 {
            Some(*number as i64)
        } else {
            None
        },
        Slot::Once(Json::Signed(number)) => Some(*number),
        _ => None,
    }
}

/// Reads one profile.
fn host_from(doc: &Json) -> (read: Option<HostConfig>)
    ensures
        read is Some <==> decode_host(doc@) is Some,
        read matches Some(host) ==> decode_host(doc@) == Some(host@),
{
    match doc {
        Json::Object(members) => {
            proof {
                lemma_object_view(*members);
            }
            let host = match find(members, "host") {
                Slot::Once(Json::Text(text)) => text,
                _ => {
                    return None;
                },
            };
            let user = match user_from(find(members, "user")) {
                Some(user) => user,
                None => {
                    return None;
                },
            };
            let port = match port_from(find(members, "port")) {
                Some(port) => port,
                None => {
                    return None;
                },
            };
            HostConfig::new(host.as_str(), user, port)
        },
        _ => None,
    }
}

/// Reads the members of a `profiles` object.
fn profiles_from(members: &Vec<(String, Json)>) -> (read: Option<ProfileStore>)
    ensures
        read is Some <==> decode_profiles(members_view(members@)) is Some,
        read matches Some(store) ==> decode_profiles(members_view(members@)) == Some(store@),
{
    let ghost all = members_view(members@);
    let mut store = ProfileStore::new();
    let mut at: usize = 0;
    while at < members.len()
        invariant
            at <= members@.len(),
            all == members_view(members@),
            decode_profiles(all.take(at as int)) == Some(store@),
        decreases members@.len() - at,
    {
        assert(all.take(at + 1).drop_last() =~= all.take(at as int));
        match host_from(&members[at].1) {
            Some(host) => {
                store.insert(members[at].0.as_str(), host);
            },
            None => {
                proof {
                    lemma_decode_profiles_prefix(all, at + 1);
                }
                return None;
            },
        }
        at = at + 1;
    }
    assert(all.take(at as int) =~= all);
    Some(store)
}

/// Reads the `profiles` member.
fn store_from(slot: Slot) -> (read: Option<ProfileStore>)
    ensures
        read is Some <==> decode_store(slot@) is Some,
        read matches Some(store) ==> decode_store(slot@) == Some(store@),
{
    match slot {
        Slot::Once(Json::Object(members)) => {
            proof {
                lemma_object_view(*members);
            }
            profiles_from(members)
        },
        _ => None,
    }
}

/// Writes one profile.
fn host_document(host: &HostConfig) -> (doc: Json)
    ensures
        doc@ == encode_host(host@),
{
    let mut members: Vec<(String, Json)> = Vec::new();
    members.push((String::from_str("host"), Json::Text(String::from_str(host.host()))));
    match host.port() {
        Some(port) => {
            members.push((String::from_str("port"), Json::Unsigned(port as u64)));
        },
        None => {},
    }
    match host.user() {
        Some(user) => {
            members.push((String::from_str("user"), Json::Text(String::from_str(user))));
        },
        None => {},
    }
    proof {
        lemma_object_view(members);
        assert(members_view(members@) =~= encode_host_members(host@));
    }
    Json::Object(members)
}

impl Config {
    /// Reads a configuration from a document. `None` where the document
    /// does not follow the schema.
    pub fn from_document(doc: &Json) -> (read: Option<Config>)
        ensures
            read is Some <==> decode_config(doc@) is Some,
            read matches Some(config) ==> decode_config(doc@) == Some(config@),
    {
        match doc {
            Json::Object(members) => {
                proof {
                    lemma_object_view(*members);
                }
                let profiles = match store_from(find(members, "profiles")) {
                    Some(profiles) => profiles,
                    None => {
                        return None;
                    },
                };
                let updated_at = match stamp_from(find(members, "updated_at")) {
                    Some(updated_at) => updated_at,
                    None => {
                        return None;
                    },
                };
                Some(Config { profiles, updated_at })
            },
            _ => None,
        }
    }

    /// Writes the configuration as a document: the profiles in ascending
    /// order of their names, then the time of the last save.
    pub fn to_document(&self) -> (doc: Json)
        ensures
            doc@ == encode_config(self@),
            decode_config(doc@) == Some(self@),
            integral(doc@),
    {
        let ghost list = sorted(self.profiles@);
        let mut named: Vec<(String, Json)> = Vec::new();
        let mut at: usize = 0;
        while at < self.profiles.len()
            invariant
                at <= list.len(),
                list == sorted(self.profiles@),
                members_view(named@) =~= encode_profiles(list).take(at as int),
            decreases list.len() - at,
        {
            let name = String::from_str(self.profiles.name_at(at));
            let host = host_document(self.profiles.config_at(at));
            assert(members_view(named@).len() == at);
            named.push((name, host));
            at = at + 1;
        }
        assert(encode_profiles(list).take(at as int) =~= encode_profiles(list));
        let stamp = if self.updated_at < 0 {
            Json::Signed(self.updated_at)
        } else {
            Json::Unsigned(self.updated_at as u64)
        };
        let mut members: Vec<(String, Json)> = Vec::new();
        proof {
            lemma_object_view(named);
        }
        members.push((String::from_str("profiles"), Json::Object(named)));
        members.push((String::from_str("updated_at"), stamp));
        proof {
            lemma_object_view(members);
            assert(members_view(members@) =~= seq![
                ("profiles"@, JsonView::Object(encode_profiles(list))),
                ("updated_at"@, encode_integer(self.updated_at)),
            ]);
            use_type_invariant(&self.profiles);
            self.profiles.lemma_listing();
            lemma_config_round_trip(self@);
            lemma_encode_integral(self@);
        }
        Json::Object(members)
    }

    /// Reads a configuration from the text of the configuration file.
    /// Fails where the text is not JSON or does not follow the schema.
    pub fn parse(text: &str) -> (parsed: Result<Config, Failure>)
        ensures
            parsed is Ok <==> decode_text(text@) is Some,
            parsed matches Ok(config) ==> decode_text(text@) == Some(config@),
            parsed matches Err(failure) ==> failure@ == FailureView::ConfigParse,
    {
        match parse_document(text) {
            Ok(doc) => match Config::from_document(&doc) {
                Some(config) => Ok(config),
                None => Err(Failure::ConfigParse),
            },
            Err(_) => Err(Failure::ConfigParse),
        }
    }

    /// Writes the configuration as the text of the configuration file. The
    /// text is read back before it is handed out: a text that does not
    /// stand for the configuration is a failure.
    pub fn render(&self) -> (rendered: Result<String, Failure>)
        ensures
            rendered is Ok <==> encode_text(self@) is Some,
            rendered matches Ok(text) ==> encode_text(self@) == Some(text@) && decode_text(text@) == Some(
                self@,
            ),
            rendered matches Err(failure) ==> failure@ == FailureView::ConfigIo(
                "Failed to serialize config"@,
            ),
    {
        let doc = self.to_document();
        let text = match render_document(&doc) {
            Ok(text) => text,
            Err(_) => {
                return Err(Failure::ConfigIo(String::from_str("Failed to serialize config")));
            },
        };
        match Config::parse(text.as_str()) {
            Ok(back) => if back.same(self) {
                Ok(text)
            } else {
                Err(Failure::ConfigIo(String::from_str("Failed to serialize config")))
            },
            Err(_) => Err(Failure::ConfigIo(String::from_str("Failed to serialize config"))),
        }
    }
}

} // verus!
