//! The packet codec: every outbound command is framed as a compact
//! JSON object, and every inbound frame is decoded into a typed packet
//! or discarded as unparseable.

use vstd::prelude::*;
use crate::json::{
    JVal, Json, json_parse, jview, jview_membs, jview_seq, parse_json, print_jval, print_json,
    push_dec,
};
use crate::json_props::lemma_print_parse_json;
use crate::packets::chat::{
    ChatMessageEmoticonCoordsData, ChatMessageEventData, ChatMessageEventDataV,
    ChatMessageMessage, ChatMessageMessageData, ChatMessageMessageDataV, ChatMessageMessageV,
    ChatMessageMeta, ChatMessageType, MethodType, ModeratorData, ModeratorDataV, PurgeUserData,
    PurgeUserDataV, TimeoutData, TimeoutDataV, TimeoutUserData, TimeoutUserDataV, UserJoinData,
    UserJoinDataV, UserLeaveData, UserLeaveDataV, WelcomeEventData, WelcomeEventDataV,
};

verus! {

broadcast use vstd::seq::group_seq_axioms, vstd::seq_lib::group_seq_lib_default, vstd::std_specs::vec::group_vec_axioms;

// ---------------------------------------------------------------------------
// Wire field names and method names
// ---------------------------------------------------------------------------

pub open spec fn key_type() -> Seq<char> {
    seq!['t', 'y', 'p', 'e']
}

pub open spec fn key_method() -> Seq<char> {
    seq!['m', 'e', 't', 'h', 'o', 'd']
}

pub open spec fn key_arguments() -> Seq<char> {
    seq!['a', 'r', 'g', 'u', 'm', 'e', 'n', 't', 's']
}

pub open spec fn key_id() -> Seq<char> {
    seq!['i', 'd']
}

pub open spec fn key_event() -> Seq<char> {
    seq!['e', 'v', 'e', 'n', 't']
}

pub open spec fn key_data() -> Seq<char> {
    seq!['d', 'a', 't', 'a']
}

pub open spec fn lit_reply() -> Seq<char> {
    seq!['r', 'e', 'p', 'l', 'y']
}

pub open spec fn lit_event() -> Seq<char> {
    seq!['e', 'v', 'e', 'n', 't']
}

/// The wire name of each outbound method.
pub open spec fn method_name(m: MethodType) -> Seq<char> {
    match m {
        MethodType::Auth => seq!['a', 'u', 't', 'h'],
        MethodType::Msg => seq!['m', 's', 'g'],
        MethodType::Whisper => seq!['w', 'h', 'i', 's', 'p', 'e', 'r'],
        MethodType::Timeout => seq!['t', 'i', 'm', 'e', 'o', 'u', 't'],
        MethodType::Purge => seq!['p', 'u', 'r', 'g', 'e'],
        MethodType::DeleteMessage => seq![
            'd', 'e', 'l', 'e', 't', 'e', 'M', 'e', 's', 's', 'a', 'g', 'e',
        ],
        MethodType::ClearMessages => seq![
            'c', 'l', 'e', 'a', 'r', 'M', 'e', 's', 's', 'a', 'g', 'e', 's',
        ],
        MethodType::History => seq!['h', 'i', 's', 't', 'o', 'r', 'y'],
    }
}

// ---------------------------------------------------------------------------
// Encoding
// ---------------------------------------------------------------------------

/// String arguments as JSON values.
pub open spec fn strs_to_jvals(args: Seq<Seq<char>>) -> Seq<JVal> {
    args.map_values(|a: Seq<char>| JVal::Str(a))
}

/// The JSON document of a method frame.
pub open spec fn method_frame_val(method: Seq<char>, args: Seq<JVal>, id: u64) -> JVal {
    JVal::Obj(
        seq![
            (key_type(), JVal::Str(key_method())),
            (key_method(), JVal::Str(method)),
            (key_arguments(), JVal::Arr(args)),
            (key_id(), JVal::Num(id)),
        ],
    )
}

/// The encoded text of a method frame with string arguments.
pub open spec fn spec_encode_method(method: Seq<char>, args: Seq<Seq<char>>, id: u64) -> Seq<
    char,
> {
    print_jval(method_frame_val(method, strs_to_jvals(args), id))
}

/// The positional argument list of the authentication frame.
pub open spec fn auth_args_val(channel_id: u32, user_id: u32, key: Seq<char>) -> Seq<JVal> {
    seq![JVal::Num(channel_id as u64), JVal::Num(user_id as u64), JVal::Str(key)]
}

/// The encoded text of the authentication frame.
pub open spec fn spec_encode_auth(channel_id: u32, user_id: u32, key: Seq<char>, id: u64) -> Seq<
    char,
> {
    print_jval(method_frame_val(method_name(MethodType::Auth), auth_args_val(channel_id, user_id, key), id))
}

/// The characters of a string slice.
pub fn str_chars(s: &str) -> (v: Vec<char>)
    ensures
        v@ == s@,
{
    let n = s.unicode_len();
    let mut v: Vec<char> = Vec::new();
    let mut i: usize = 0;
    while i < n
        invariant
            i <= n,
            n == s@.len(),
            v@ == s@.subrange(0, i as int),
        decreases n - i,
    {
        v.push(s.get_char(i));
        proof {
            assert(v@ =~= s@.subrange(0, i as int + 1));
        }
        i = i + 1;
    }
    proof {
        assert(v@ =~= s@);
    }
    v
}

/// Relies on `String: FromIterator<char>`: collecting characters yields
/// the string of exactly those characters in order.
#[verifier::external_body]
pub(crate) fn chars_to_string(v: &Vec<char>) -> (s: String)
    ensures
        s@ == v@,
{
    v.iter().collect()
}

/// The decimal text of an unsigned number.
pub fn u64_string(n: u64) -> (r: String)
    ensures
        r@ == crate::json::dec_of(n as nat),
{
    let mut v: Vec<char> = Vec::new();
    push_dec(n, &mut v);
    proof {
        assert(v@ =~= crate::json::dec_of(n as nat));
    }
    chars_to_string(&v)
}

/// The executable wire name of a method.
pub fn method_name_chars(m: MethodType) -> (v: Vec<char>)
    ensures
        v@ == method_name(m),
{
    let mut v: Vec<char> = Vec::new();
    match m {
        MethodType::Auth => {
            v.push('a');
            v.push('u');
            v.push('t');
            v.push('h');
        },
        MethodType::Msg => {
            v.push('m');
            v.push('s');
            v.push('g');
        },
        MethodType::Whisper => {
            v.push('w');
            v.push('h');
            v.push('i');
            v.push('s');
            v.push('p');
            v.push('e');
            v.push('r');
        },
        MethodType::Timeout => {
            v.push('t');
            v.push('i');
            v.push('m');
            v.push('e');
            v.push('o');
            v.push('u');
            v.push('t');
        },
        MethodType::Purge => {
            v.push('p');
            v.push('u');
            v.push('r');
            v.push('g');
            v.push('e');
        },
        MethodType::DeleteMessage => {
            v.push('d');
            v.push('e');
            v.push('l');
            v.push('e');
            v.push('t');
            v.push('e');
            v.push('M');
            v.push('e');
            v.push('s');
            v.push('s');
            v.push('a');
            v.push('g');
            v.push('e');
        },
        MethodType::ClearMessages => {
            v.push('c');
            v.push('l');
            v.push('e');
            v.push('a');
            v.push('r');
            v.push('M');
            v.push('e');
            v.push('s');
            v.push('s');
            v.push('a');
            v.push('g');
            v.push('e');
            v.push('s');
        },
        MethodType::History => {
            v.push('h');
            v.push('i');
            v.push('s');
            v.push('t');
            v.push('o');
            v.push('r');
            v.push('y');
        },
    }
    proof {
        assert(v@ =~= method_name(m));
    }
    v
}

fn key_type_chars() -> (v: Vec<char>)
    ensures
        v@ == key_type(),
{
    let mut v: Vec<char> = Vec::new();
    v.push('t');
    v.push('y');
    v.push('p');
    v.push('e');
    proof {
        assert(v@ =~= key_type());
    }
    v
}

fn key_method_chars() -> (v: Vec<char>)
    ensures
        v@ == key_method(),
{
    let mut v: Vec<char> = Vec::new();
    v.push('m');
    v.push('e');
    v.push('t');
    v.push('h');
    v.push('o');
    v.push('d');
    proof {
        assert(v@ =~= key_method());
    }
    v
}

fn key_arguments_chars() -> (v: Vec<char>)
    ensures
        v@ == key_arguments(),
{
    let mut v: Vec<char> = Vec::new();
    v.push('a');
    v.push('r');
    v.push('g');
    v.push('u');
    v.push('m');
    v.push('e');
    v.push('n');
    v.push('t');
    v.push('s');
    proof {
        assert(v@ =~= key_arguments());
    }
    v
}

fn key_id_chars() -> (v: Vec<char>)
    ensures
        v@ == key_id(),
{
    let mut v: Vec<char> = Vec::new();
    v.push('i');
    v.push('d');
    proof {
        assert(v@ =~= key_id());
    }
    v
}

/// Build the JSON document of a method frame whose arguments are
/// already JSON values.
fn build_method_frame(method: Vec<char>, args: Vec<Json>, id: u64) -> (j: Json)
    ensures
        jview(j) == method_frame_val(method@, jview_seq(args@), id),
{
    let ghost mv = method@;
    let ghost av = args@;
    let mut membs: Vec<(Vec<char>, Json)> = Vec::new();
    membs.push((key_type_chars(), Json::Str(key_method_chars())));
    membs.push((key_method_chars(), Json::Str(method)));
    membs.push((key_arguments_chars(), Json::Arr(args)));
    membs.push((key_id_chars(), Json::Num(id)));
    let j = Json::Obj(membs);
    proof {
        let m = membs@;
        assert(m.len() == 4);
        assert(m[0].0@ == key_type() && jview(m[0].1) == JVal::Str(key_method()));
        assert(m[1].0@ == key_method() && jview(m[1].1) == JVal::Str(mv));
        assert(m[2].0@ == key_arguments() && jview(m[2].1) == JVal::Arr(jview_seq(av)));
        assert(m[3].0@ == key_id() && jview(m[3].1) == JVal::Num(id));
        assert(m.drop_first() =~= m.subrange(1, 4));
        assert(m.subrange(1, 4).drop_first() =~= m.subrange(2, 4));
        assert(m.subrange(2, 4).drop_first() =~= m.subrange(3, 4));
        assert(m.subrange(3, 4).drop_first() =~= Seq::<(Vec<char>, Json)>::empty());
        assert(jview_membs(Seq::<(Vec<char>, Json)>::empty()) == Seq::<(
            Seq<char>,
            JVal,
        )>::empty());
        assert(jview_membs(m.subrange(3, 4)) =~= seq![(key_id(), JVal::Num(id))]);
        assert(jview_membs(m.subrange(2, 4)) =~= seq![
            (key_arguments(), JVal::Arr(jview_seq(av))),
            (key_id(), JVal::Num(id)),
        ]);
        assert(jview_membs(m.subrange(1, 4)) =~= seq![
            (key_method(), JVal::Str(mv)),
            (key_arguments(), JVal::Arr(jview_seq(av))),
            (key_id(), JVal::Num(id)),
        ]);
        assert(jview_membs(m) =~= seq![
            (key_type(), JVal::Str(key_method())),
            (key_method(), JVal::Str(mv)),
            (key_arguments(), JVal::Arr(jview_seq(av))),
            (key_id(), JVal::Num(id)),
        ]);
    }
    j
}

/// Turn string arguments into JSON string values.
fn args_to_json(arguments: &Vec<String>) -> (out: Vec<Json>)
    ensures
        jview_seq(out@) == strs_to_jvals(arguments.deep_view()),
{
    let n = arguments.len();
    let mut out: Vec<Json> = Vec::new();
    let mut i: usize = 0;
    while i < n
        invariant
            i <= n,
            n == arguments@.len(),
            out@.len() == i,
            jview_seq(out@) =~= strs_to_jvals(arguments.deep_view().subrange(0, i as int)),
        decreases n - i,
    {
        let ghost before = out@;
        let cs = str_chars(arguments[i].as_str());
        let ghost csv = cs@;
        out.push(Json::Str(cs));
        proof {
            let x = out@.last();
            assert(out@ == before.push(x));
            assert(jview(x) == JVal::Str(csv));
            assert(csv == arguments.deep_view()[i as int]);
            lemma_jview_seq_push(before, x);
            assert(strs_to_jvals(arguments.deep_view().subrange(0, i as int + 1)) =~= jview_seq(
                before,
            ).push(JVal::Str(csv)));
        }
        i = i + 1;
    }
    proof {
        assert(arguments.deep_view().subrange(0, n as int) =~= arguments.deep_view());
    }
    out
}

/// Appending one value to a sequence appends its model.
proof fn lemma_jview_seq_push(a: Seq<Json>, x: Json)
    ensures
        jview_seq(a.push(x)) == jview_seq(a).push(jview(x)),
    decreases a.len(),
{
    if a.len() == 0 {
        assert(a.push(x).drop_first() =~= Seq::<Json>::empty());
        assert(jview_seq(Seq::<Json>::empty()) == Seq::<JVal>::empty());
        assert(a.push(x)[0] == x);
        assert(jview_seq(a) == Seq::<JVal>::empty());
        assert(jview_seq(a.push(x)) =~= jview_seq(a).push(jview(x)));
    } else {
        lemma_jview_seq_push(a.drop_first(), x);
        assert(a.push(x).drop_first() =~= a.drop_first().push(x));
        assert(a.push(x)[0] == a[0]);
        assert(jview_seq(a.push(x)) =~= jview_seq(a).push(jview(x)));
    }
}

/// Encode a method frame: `{"type":"method","method":<name>,
/// "arguments":[...],"id":<id>}` in the compact wire shape.
pub fn encode_method(method: &str, arguments: &Vec<String>, id: u64) -> (r: String)
    ensures
        r@ == spec_encode_method(method@, arguments.deep_view(), id),
{
    let frame = build_method_frame(str_chars(method), args_to_json(arguments), id);
    let text = print_json(&frame);
    chars_to_string(&text)
}

/// Encode the authentication frame: its arguments are positional
/// `[channel_id, user_id, auth_key]`, the numbers unquoted.
pub fn encode_auth(channel_id: u32, user_id: u32, auth_key: &str, id: u64) -> (r: String)
    ensures
        r@ == spec_encode_auth(channel_id, user_id, auth_key@, id),
{
    let mut args: Vec<Json> = Vec::new();
    args.push(Json::Num(channel_id as u64));
    args.push(Json::Num(user_id as u64));
    args.push(Json::Str(str_chars(auth_key)));
    proof {
        let a = args@;
        assert(a.len() == 3);
        assert(jview(a[0]) == JVal::Num(channel_id as u64));
        assert(jview(a[1]) == JVal::Num(user_id as u64));
        assert(jview(a[2]) == JVal::Str(auth_key@));
        assert(a.drop_first() =~= a.subrange(1, 3));
        assert(a.subrange(1, 3).drop_first() =~= a.subrange(2, 3));
        assert(a.subrange(2, 3).drop_first() =~= Seq::<Json>::empty());
        assert(jview_seq(Seq::<Json>::empty()) == Seq::<JVal>::empty());
        assert(jview_seq(a.subrange(2, 3)) =~= seq![JVal::Str(auth_key@)]);
        assert(jview_seq(a.subrange(1, 3)) =~= seq![
            JVal::Num(user_id as u64),
            JVal::Str(auth_key@),
        ]);
        assert(jview_seq(a) =~= auth_args_val(channel_id, user_id, auth_key@));
    }
    let frame = build_method_frame(method_name_chars(MethodType::Auth), args, id);
    let text = print_json(&frame);
    chars_to_string(&text)
}

// ---------------------------------------------------------------------------
// Decoded packets
// ---------------------------------------------------------------------------

/// A decoded inbound frame.
#[derive(Debug)]
pub enum Packet {
    Method { method: String, arguments: Vec<String>, id: u64 },
    Reply,
    Event(EventPayload),
}

/// The typed payload of a decoded event frame. Tags the engine knows
/// but does not act on, and tags it has never heard of, both land in
/// `Ignored`: the dispatcher fires no handler for them.
#[derive(Debug)]
pub enum EventPayload {
    Welcome(WelcomeEventData),
    ChatMessage(ChatMessageEventData),
    UserJoin(UserJoinData),
    UserLeave(UserLeaveData),
    UserTimeout(TimeoutData),
    PurgeMessage(PurgeUserData),
    ClearMessages,
    DeleteMessage,
    Ignored,
}

/// Spec mirror of `Packet`.
pub enum PacketV {
    Method { method: Seq<char>, arguments: Seq<Seq<char>>, id: u64 },
    Reply,
    Event(EventPayloadV),
}

/// Spec mirror of `EventPayload`.
pub enum EventPayloadV {
    Welcome(WelcomeEventDataV),
    ChatMessage(ChatMessageEventDataV),
    UserJoin(UserJoinDataV),
    UserLeave(UserLeaveDataV),
    UserTimeout(TimeoutDataV),
    PurgeMessage(PurgeUserDataV),
    ClearMessages,
    DeleteMessage,
    Ignored,
}

impl DeepView for EventPayload {
    type V = EventPayloadV;

    open spec fn deep_view(&self) -> EventPayloadV {
        match self {
            EventPayload::Welcome(d) => EventPayloadV::Welcome(d.deep_view()),
            EventPayload::ChatMessage(d) => EventPayloadV::ChatMessage(d.deep_view()),
            EventPayload::UserJoin(d) => EventPayloadV::UserJoin(d.deep_view()),
            EventPayload::UserLeave(d) => EventPayloadV::UserLeave(d.deep_view()),
            EventPayload::UserTimeout(d) => EventPayloadV::UserTimeout(d.deep_view()),
            EventPayload::PurgeMessage(d) => EventPayloadV::PurgeMessage(d.deep_view()),
            EventPayload::ClearMessages => EventPayloadV::ClearMessages,
            EventPayload::DeleteMessage => EventPayloadV::DeleteMessage,
            EventPayload::Ignored => EventPayloadV::Ignored,
        }
    }
}

impl DeepView for Packet {
    type V = PacketV;

    open spec fn deep_view(&self) -> PacketV {
        match self {
            Packet::Method { method, arguments, id } => PacketV::Method {
                method: method@,
                arguments: arguments.deep_view(),
                id: *id,
            },
            Packet::Reply => PacketV::Reply,
            Packet::Event(p) => PacketV::Event(p.deep_view()),
        }
    }
}

// ---------------------------------------------------------------------------
// Decoding: field lookup and payload extraction, spec level
// ---------------------------------------------------------------------------

/// The first member of `m` named `k`, if any.
pub open spec fn jlookup(m: Seq<(Seq<char>, JVal)>, k: Seq<char>) -> Option<JVal>
    decreases m.len(),
{
    if m.len() == 0 {
        None
    } else if m[0].0 == k {
        Some(m[0].1)
    } else {
        jlookup(m.drop_first(), k)
    }
}

/// A required string member.
pub open spec fn str_field(m: Seq<(Seq<char>, JVal)>, k: Seq<char>) -> Option<Seq<char>> {
    match jlookup(m, k) {
        Some(JVal::Str(s)) => Some(s),
        _ => None,
    }
}

/// A required unsigned member.
pub open spec fn u64_field(m: Seq<(Seq<char>, JVal)>, k: Seq<char>) -> Option<u64> {
    match jlookup(m, k) {
        Some(JVal::Num(n)) => Some(n),
        _ => None,
    }
}

/// A required unsigned member that must fit 32 bits.
pub open spec fn u32_field(m: Seq<(Seq<char>, JVal)>, k: Seq<char>) -> Option<u32> {
    match jlookup(m, k) {
        Some(JVal::Num(n)) => if n <= u32::MAX as u64 {
            Some(n as u32)
        } else {
            None
        },
        _ => None,
    }
}

/// A required unsigned member that must fit 16 bits.
pub open spec fn u16_field(m: Seq<(Seq<char>, JVal)>, k: Seq<char>) -> Option<u16> {
    match jlookup(m, k) {
        Some(JVal::Num(n)) => if n <= u16::MAX as u64 {
            Some(n as u16)
        } else {
            None
        },
        _ => None,
    }
}

/// An optional string member: absent or null reads as `None`.
pub open spec fn opt_str_field(m: Seq<(Seq<char>, JVal)>, k: Seq<char>) -> Option<
    Option<Seq<char>>,
> {
    match jlookup(m, k) {
        None => Some(None),
        Some(JVal::Null) => Some(None),
        Some(JVal::Str(s)) => Some(Some(s)),
        _ => None,
    }
}

/// An optional 32-bit unsigned member.
pub open spec fn opt_u32_field(m: Seq<(Seq<char>, JVal)>, k: Seq<char>) -> Option<Option<u32>> {
    match jlookup(m, k) {
        None => Some(None),
        Some(JVal::Null) => Some(None),
        Some(JVal::Num(n)) => if n <= u32::MAX as u64 {
            Some(Some(n as u32))
        } else {
            None
        },
        _ => None,
    }
}

/// An optional boolean member.
pub open spec fn opt_bool_field(m: Seq<(Seq<char>, JVal)>, k: Seq<char>) -> Option<Option<bool>> {
    match jlookup(m, k) {
        None => Some(None),
        Some(JVal::Null) => Some(None),
        Some(JVal::Bool(b)) => Some(Some(b)),
        _ => None,
    }
}

/// All elements as strings, or nothing.
pub open spec fn str_list(a: Seq<JVal>) -> Option<Seq<Seq<char>>>
    decreases a.len(),
{
    if a.len() == 0 {
        Some(Seq::empty())
    } else {
        match a[0] {
            JVal::Str(s) => match str_list(a.drop_first()) {
                Some(r) => Some(seq![s] + r),
                None => None,
            },
            _ => None,
        }
    }
}

/// A required member holding an array of strings.
pub open spec fn str_list_field(m: Seq<(Seq<char>, JVal)>, k: Seq<char>) -> Option<
    Seq<Seq<char>>,
> {
    match jlookup(m, k) {
        Some(JVal::Arr(a)) => str_list(a),
        _ => None,
    }
}

/// All members as string-to-string pairs, or nothing.
pub open spec fn str_pairs(m: Seq<(Seq<char>, JVal)>) -> Option<Seq<(Seq<char>, Seq<char>)>>
    decreases m.len(),
{
    if m.len() == 0 {
        Some(Seq::empty())
    } else {
        match m[0].1 {
            JVal::Str(s) => match str_pairs(m.drop_first()) {
                Some(r) => Some(seq![(m[0].0, s)] + r),
                None => None,
            },
            _ => None,
        }
    }
}

/// The payload of a welcome event.
pub open spec fn spec_ext_welcome(v: JVal) -> Option<WelcomeEventDataV> {
    match v {
        JVal::Obj(m) => match str_field(m, "server"@) {
            Some(server) => Some(WelcomeEventDataV { server }),
            None => None,
        },
        _ => None,
    }
}

/// The payload of a user-join event.
pub open spec fn spec_ext_user_join(v: JVal) -> Option<UserJoinDataV> {
    match v {
        JVal::Obj(m) => match (
            u64_field(m, "originatingChannel"@),
            str_field(m, "username"@),
            str_list_field(m, "roles"@),
            u64_field(m, "id"@),
        ) {
            (Some(originating_channel), Some(username), Some(roles), Some(id)) => Some(
                UserJoinDataV { originating_channel, username, roles, id },
            ),
            _ => None,
        },
        _ => None,
    }
}

/// The payload of a user-leave event.
pub open spec fn spec_ext_user_leave(v: JVal) -> Option<UserLeaveDataV> {
    match v {
        JVal::Obj(m) => match (
            u64_field(m, "originatingChannel"@),
            str_field(m, "username"@),
            u64_field(m, "id"@),
        ) {
            (Some(originating_channel), Some(username), Some(id)) => Some(
                UserLeaveDataV { originating_channel, username, id },
            ),
            _ => None,
        },
        _ => None,
    }
}

/// The user record inside a timeout event.
pub open spec fn spec_ext_timeout_user(v: JVal) -> Option<TimeoutUserDataV> {
    match v {
        JVal::Obj(m) => match (
            str_field(m, "user_name"@),
            u32_field(m, "user_id"@),
            str_list_field(m, "user_roles"@),
        ) {
            (Some(user_name), Some(user_id), Some(user_roles)) => Some(
                TimeoutUserDataV { user_name, user_id, user_roles },
            ),
            _ => None,
        },
        _ => None,
    }
}

/// The payload of a timeout event.
pub open spec fn spec_ext_timeout(v: JVal) -> Option<TimeoutDataV> {
    match v {
        JVal::Obj(m) => match jlookup(m, "user"@) {
            Some(u) => match spec_ext_timeout_user(u) {
                Some(user) => Some(TimeoutDataV { user }),
                None => None,
            },
            None => None,
        },
        _ => None,
    }
}

/// A moderator record inside a purge event.
pub open spec fn spec_ext_moderator(v: JVal) -> Option<ModeratorDataV> {
    match v {
        JVal::Obj(m) => match (
            str_field(m, "user_name"@),
            u32_field(m, "user_id"@),
            str_list_field(m, "user_roles"@),
            u32_field(m, "user_level"@),
        ) {
            (Some(user_name), Some(user_id), Some(user_roles), Some(user_level)) => Some(
                ModeratorDataV { user_name, user_id, user_roles, user_level },
            ),
            _ => None,
        },
        _ => None,
    }
}

/// The payload of a purge event.
pub open spec fn spec_ext_purge(v: JVal) -> Option<PurgeUserDataV> {
    match v {
        JVal::Obj(m) => match u32_field(m, "user_id"@) {
            Some(user_id) => match jlookup(m, "moderator"@) {
                None => Some(PurgeUserDataV { moderator: None, user_id }),
                Some(JVal::Null) => Some(PurgeUserDataV { moderator: None, user_id }),
                Some(mv) => match spec_ext_moderator(mv) {
                    Some(moderator) => Some(
                        PurgeUserDataV { moderator: Some(moderator), user_id },
                    ),
                    None => None,
                },
            },
            None => None,
        },
        _ => None,
    }
}

/// Emoticon coordinates inside a message fragment.
pub open spec fn spec_ext_coords(v: JVal) -> Option<ChatMessageEmoticonCoordsData> {
    match v {
        JVal::Obj(m) => match (
            u16_field(m, "x"@),
            u16_field(m, "y"@),
            u16_field(m, "width"@),
            u16_field(m, "height"@),
        ) {
            (Some(x), Some(y), Some(width), Some(height)) => Some(
                ChatMessageEmoticonCoordsData { x, y, width, height },
            ),
            _ => None,
        },
        _ => None,
    }
}

/// The metadata of a chat message.
pub open spec fn spec_ext_meta(v: JVal) -> Option<ChatMessageMeta> {
    match v {
        JVal::Obj(m) => match (
            opt_bool_field(m, "whisper"@),
            opt_bool_field(m, "me"@),
            opt_bool_field(m, "censored"@),
        ) {
            (Some(whisper), Some(me), Some(censored)) => Some(
                ChatMessageMeta { whisper, me, censored },
            ),
            _ => None,
        },
        _ => None,
    }
}

/// The fragment kind named by a `type` member.
pub open spec fn spec_msg_type(s: Seq<char>) -> Option<ChatMessageType> {
    if s == "text"@ {
        Some(ChatMessageType::Text)
    } else if s == "tag"@ {
        Some(ChatMessageType::Tag)
    } else if s == "emoticon"@ {
        Some(ChatMessageType::Emoticon)
    } else if s == "link"@ {
        Some(ChatMessageType::Link)
    } else {
        None
    }
}

/// One fragment of a chat message body.
pub open spec fn spec_ext_fragment(v: JVal) -> Option<ChatMessageMessageV> {
    match v {
        JVal::Obj(m) => match str_field(m, "type"@) {
            Some(ts) => match spec_msg_type(ts) {
                Some(message_type) => {
                    match (
                        opt_str_field(m, "data"@),
                        opt_str_field(m, "text"@),
                        opt_str_field(m, "url"@),
                        opt_u32_field(m, "id"@),
                        opt_str_field(m, "source"@),
                    ) {
                        (Some(data), Some(text), Some(url), Some(id), Some(source)) => {
                            let coords = match jlookup(m, "coords"@) {
                                None => Some(None),
                                Some(JVal::Null) => Some(None),
                                Some(cv) => match spec_ext_coords(cv) {
                                    Some(c) => Some(Some(c)),
                                    None => None,
                                },
                            };
                            let alt = match jlookup(m, "alt"@) {
                                None => Some(None),
                                Some(JVal::Null) => Some(None),
                                Some(JVal::Obj(am)) => match str_pairs(am) {
                                    Some(p) => Some(Some(p)),
                                    None => None,
                                },
                                Some(_) => None,
                            };
                            match (coords, alt) {
                                (Some(coords), Some(alt)) => Some(
                                    ChatMessageMessageV {
                                        message_type,
                                        data,
                                        text,
                                        url,
                                        id,
                                        source,
                                        coords,
                                        alt,
                                    },
                                ),
                                _ => None,
                            }
                        },
                        _ => None,
                    }
                },
                None => None,
            },
            None => None,
        },
        _ => None,
    }
}

/// All fragments, or nothing.
pub open spec fn spec_frag_list(a: Seq<JVal>) -> Option<Seq<ChatMessageMessageV>>
    decreases a.len(),
{
    if a.len() == 0 {
        Some(Seq::empty())
    } else {
        match spec_ext_fragment(a[0]) {
            Some(f) => match spec_frag_list(a.drop_first()) {
                Some(r) => Some(seq![f] + r),
                None => None,
            },
            None => None,
        }
    }
}

/// The body of a chat message: fragments and metadata.
pub open spec fn spec_ext_msg_data(v: JVal) -> Option<ChatMessageMessageDataV> {
    match v {
        JVal::Obj(m) => match (jlookup(m, "message"@), jlookup(m, "meta"@)) {
            (Some(JVal::Arr(a)), Some(mv)) => match (spec_frag_list(a), spec_ext_meta(mv)) {
                (Some(message), Some(meta)) => Some(ChatMessageMessageDataV { message, meta }),
                _ => None,
            },
            _ => None,
        },
        _ => None,
    }
}

/// The payload of a chat-message event.
pub open spec fn spec_ext_chat_message(v: JVal) -> Option<ChatMessageEventDataV> {
    match v {
        JVal::Obj(m) => match (
            u32_field(m, "channel"@),
            str_field(m, "id"@),
            str_field(m, "user_name"@),
            u32_field(m, "user_id"@),
            str_list_field(m, "user_roles"@),
            u64_field(m, "user_level"@),
            str_field(m, "user_avatar"@),
        ) {
            (
                Some(channel),
                Some(id),
                Some(user_name),
                Some(user_id),
                Some(user_roles),
                Some(user_level),
                Some(user_avatar),
            ) => {
                match (jlookup(m, "message"@), opt_str_field(m, "target"@)) {
                    (Some(mv), Some(target)) => match spec_ext_msg_data(mv) {
                        Some(message) => Some(
                            ChatMessageEventDataV {
                                channel,
                                id,
                                user_name,
                                user_id,
                                user_roles,
                                user_level,
                                user_avatar,
                                message,
                                target,
                            },
                        ),
                        None => None,
                    },
                    _ => None,
                }
            },
            _ => None,
        },
        _ => None,
    }
}

// ---------------------------------------------------------------------------
// Decoding: frame classification, spec level
// ---------------------------------------------------------------------------

/// Classify a method frame's members.
pub open spec fn spec_classify_method(m: Seq<(Seq<char>, JVal)>) -> Option<PacketV> {
    match (jlookup(m, key_method()), jlookup(m, key_arguments()), jlookup(m, key_id())) {
        (Some(JVal::Str(method)), Some(JVal::Arr(a)), Some(JVal::Num(id))) => match str_list(a) {
            Some(arguments) => Some(PacketV::Method { method, arguments, id }),
            None => None,
        },
        _ => None,
    }
}

/// Classify an event frame's members: pick the payload shape by tag.
/// A tag the engine does not act on reads as `Ignored`.
pub open spec fn spec_classify_event(m: Seq<(Seq<char>, JVal)>) -> Option<PacketV> {
    match str_field(m, key_event()) {
        None => None,
        Some(tag) => {
            if tag == "ChatMessage"@ {
                match jlookup(m, key_data()) {
                    Some(d) => match spec_ext_chat_message(d) {
                        Some(x) => Some(PacketV::Event(EventPayloadV::ChatMessage(x))),
                        None => None,
                    },
                    None => None,
                }
            } else if tag == "UserJoin"@ {
                match jlookup(m, key_data()) {
                    Some(d) => match spec_ext_user_join(d) {
                        Some(x) => Some(PacketV::Event(EventPayloadV::UserJoin(x))),
                        None => None,
                    },
                    None => None,
                }
            } else if tag == "UserLeave"@ {
                match jlookup(m, key_data()) {
                    Some(d) => match spec_ext_user_leave(d) {
                        Some(x) => Some(PacketV::Event(EventPayloadV::UserLeave(x))),
                        None => None,
                    },
                    None => None,
                }
            } else if tag == "UserTimeout"@ {
                match jlookup(m, key_data()) {
                    Some(d) => match spec_ext_timeout(d) {
                        Some(x) => Some(PacketV::Event(EventPayloadV::UserTimeout(x))),
                        None => None,
                    },
                    None => None,
                }
            } else if tag == "PurgeMessage"@ {
                match jlookup(m, key_data()) {
                    Some(d) => match spec_ext_purge(d) {
                        Some(x) => Some(PacketV::Event(EventPayloadV::PurgeMessage(x))),
                        None => None,
                    },
                    None => None,
                }
            } else if tag == "WelcomeEvent"@ {
                match jlookup(m, key_data()) {
                    Some(d) => match spec_ext_welcome(d) {
                        Some(x) => Some(PacketV::Event(EventPayloadV::Welcome(x))),
                        None => None,
                    },
                    None => None,
                }
            } else if tag == "ClearMessages"@ {
                Some(PacketV::Event(EventPayloadV::ClearMessages))
            } else if tag == "DeleteMessage"@ {
                Some(PacketV::Event(EventPayloadV::DeleteMessage))
            } else {
                Some(PacketV::Event(EventPayloadV::Ignored))
            }
        },
    }
}

/// Classify a parsed frame by its `type` discriminator.
pub open spec fn spec_classify(v: JVal) -> Option<PacketV> {
    match v {
        JVal::Obj(m) => match str_field(m, key_type()) {
            Some(t) => {
                if t == key_method() {
                    spec_classify_method(m)
                } else if t == lit_reply() {
                    Some(PacketV::Reply)
                } else if t == lit_event() {
                    spec_classify_event(m)
                } else {
                    None
                }
            },
            None => None,
        },
        _ => None,
    }
}

/// Decode a frame's text: parse the JSON document and classify it.
/// Anything outside the wire grammar reads as nothing and is discarded
/// by the session loop.
pub open spec fn spec_decode(s: Seq<char>) -> Option<PacketV> {
    match parse_json(s) {
        None => None,
        Some(v) => spec_classify(v),
    }
}



// ---------------------------------------------------------------------------
// Decoding: executable layer
// ---------------------------------------------------------------------------

/// Character-sequence equality.
fn chars_eq(a: &Vec<char>, b: &Vec<char>) -> (r: bool)
    ensures
        r == (a@ == b@),
{
    let n = a.len();
    if n != b.len() {
        return false;
    }
    let mut i: usize = 0;
    while i < n
        invariant
            i <= n,
            n == a@.len() == b@.len(),
            forall|t: int| 0 <= t < i ==> a@[t] == b@[t],
        decreases n - i,
    {
        if a[i] != b[i] {
            return false;
        }
        i = i + 1;
    }
    proof {
        assert(a@ =~= b@);
    }
    true
}

fn key_event_chars() -> (v: Vec<char>)
    ensures
        v@ == key_event(),
{
    let mut v: Vec<char> = Vec::new();
    v.push('e');
    v.push('v');
    v.push('e');
    v.push('n');
    v.push('t');
    proof {
        assert(v@ =~= key_event());
    }
    v
}

fn key_data_chars() -> (v: Vec<char>)
    ensures
        v@ == key_data(),
{
    let mut v: Vec<char> = Vec::new();
    v.push('d');
    v.push('a');
    v.push('t');
    v.push('a');
    proof {
        assert(v@ =~= key_data());
    }
    v
}

fn lit_reply_chars() -> (v: Vec<char>)
    ensures
        v@ == lit_reply(),
{
    let mut v: Vec<char> = Vec::new();
    v.push('r');
    v.push('e');
    v.push('p');
    v.push('l');
    v.push('y');
    proof {
        assert(v@ =~= lit_reply());
    }
    v
}

/// Index of the first member named `k`, if any.
fn jget(m: &Vec<(Vec<char>, Json)>, k: &Vec<char>) -> (r: Option<usize>)
    ensures
        match r {
            Some(idx) => idx < m@.len() && jlookup(jview_membs(m@), k@) == Some(
                jview(m@[idx as int].1),
            ),
            None => jlookup(jview_membs(m@), k@) is None,
        },
{
    let n = m.len();
    proof {
        assert(m@.skip(0) =~= m@);
    }
    let mut i: usize = 0;
    while i < n
        invariant
            i <= n,
            n == m@.len(),
            jlookup(jview_membs(m@), k@) == jlookup(jview_membs(m@.skip(i as int)), k@),
        decreases n - i,
    {
        proof {
            assert(m@.skip(i as int)[0] == m@[i as int]);
            assert(m@.skip(i as int).drop_first() =~= m@.skip(i as int + 1));
            assert(jview_membs(m@.skip(i as int))[0] == (m@[i as int].0@, jview(m@[i as int].1)));
            assert(jview_membs(m@.skip(i as int)).drop_first() =~= jview_membs(
                m@.skip(i as int + 1),
            ));
        }
        if chars_eq(&m[i].0, k) {
            return Some(i);
        }
        i = i + 1;
    }
    proof {
        assert(m@.skip(n as int) =~= Seq::<(Vec<char>, Json)>::empty());
        assert(jview_membs(Seq::<(Vec<char>, Json)>::empty()) == Seq::<(Seq<char>, JVal)>::empty());
    }
    None
}

/// A required string member, as an owned `String`.
fn get_str_field(m: &Vec<(Vec<char>, Json)>, k: &Vec<char>) -> (r: Option<String>)
    ensures
        match r {
            Some(s) => str_field(jview_membs(m@), k@) == Some(s@),
            None => str_field(jview_membs(m@), k@) is None,
        },
{
    match jget(m, k) {
        None => None,
        Some(idx) => match &m[idx].1 {
            Json::Str(s) => Some(chars_to_string(s)),
            _ => None,
        },
    }
}

/// A required string member, as characters.
fn get_chars_field(m: &Vec<(Vec<char>, Json)>, k: &Vec<char>) -> (r: Option<Vec<char>>)
    ensures
        match r {
            Some(s) => str_field(jview_membs(m@), k@) == Some(s@),
            None => str_field(jview_membs(m@), k@) is None,
        },
{
    match jget(m, k) {
        None => None,
        Some(idx) => match &m[idx].1 {
            Json::Str(s) => {
                let mut out: Vec<char> = Vec::new();
                let n = s.len();
                let mut i: usize = 0;
                while i < n
                    invariant
                        i <= n,
                        n == s@.len(),
                        out@ == s@.subrange(0, i as int),
                    decreases n - i,
                {
                    out.push(s[i]);
                    proof {
                        assert(out@ =~= s@.subrange(0, i as int + 1));
                    }
                    i = i + 1;
                }
                proof {
                    assert(out@ =~= s@);
                }
                Some(out)
            },
            _ => None,
        },
    }
}

/// A required unsigned member.
fn get_u64_field(m: &Vec<(Vec<char>, Json)>, k: &Vec<char>) -> (r: Option<u64>)
    ensures
        match r {
            Some(n) => u64_field(jview_membs(m@), k@) == Some(n),
            None => u64_field(jview_membs(m@), k@) is None,
        },
{
    match jget(m, k) {
        None => None,
        Some(idx) => match &m[idx].1 {
            Json::Num(n) => Some(*n),
            _ => None,
        },
    }
}

/// A required unsigned member that must fit 32 bits.
fn get_u32_field(m: &Vec<(Vec<char>, Json)>, k: &Vec<char>) -> (r: Option<u32>)
    ensures
        match r {
            Some(n) => u32_field(jview_membs(m@), k@) == Some(n),
            None => u32_field(jview_membs(m@), k@) is None,
        },
{
    match jget(m, k) {
        None => None,
        Some(idx) => match &m[idx].1 {
            Json::Num(n) => if *n <= 0xffff_ffff {
                Some(*n as u32)
            } else {
                None
            },
            _ => None,
        },
    }
}

/// A required unsigned member that must fit 16 bits.
fn get_u16_field(m: &Vec<(Vec<char>, Json)>, k: &Vec<char>) -> (r: Option<u16>)
    ensures
        match r {
            Some(n) => u16_field(jview_membs(m@), k@) == Some(n),
            None => u16_field(jview_membs(m@), k@) is None,
        },
{
    match jget(m, k) {
        None => None,
        Some(idx) => match &m[idx].1 {
            Json::Num(n) => if *n <= 0xffff {
                Some(*n as u16)
            } else {
                None
            },
            _ => None,
        },
    }
}

/// An optional string member.
fn get_opt_str_field(m: &Vec<(Vec<char>, Json)>, k: &Vec<char>) -> (r: Option<Option<String>>)
    ensures
        match r {
            Some(o) => opt_str_field(jview_membs(m@), k@) == Some(o.deep_view()),
            None => opt_str_field(jview_membs(m@), k@) is None,
        },
{
    match jget(m, k) {
        None => Some(None),
        Some(idx) => match &m[idx].1 {
            Json::Null => Some(None),
            Json::Str(s) => Some(Some(chars_to_string(s))),
            _ => None,
        },
    }
}

/// An optional 32-bit unsigned member.
fn get_opt_u32_field(m: &Vec<(Vec<char>, Json)>, k: &Vec<char>) -> (r: Option<Option<u32>>)
    ensures
        match r {
            Some(o) => opt_u32_field(jview_membs(m@), k@) == Some(o),
            None => opt_u32_field(jview_membs(m@), k@) is None,
        },
{
    match jget(m, k) {
        None => Some(None),
        Some(idx) => match &m[idx].1 {
            Json::Null => Some(None),
            Json::Num(n) => if *n <= 0xffff_ffff {
                Some(Some(*n as u32))
            } else {
                None
            },
            _ => None,
        },
    }
}

/// An optional boolean member.
fn get_opt_bool_field(m: &Vec<(Vec<char>, Json)>, k: &Vec<char>) -> (r: Option<Option<bool>>)
    ensures
        match r {
            Some(o) => opt_bool_field(jview_membs(m@), k@) == Some(o),
            None => opt_bool_field(jview_membs(m@), k@) is None,
        },
{
    match jget(m, k) {
        None => Some(None),
        Some(idx) => match &m[idx].1 {
            Json::Null => Some(None),
            Json::Bool(b) => Some(Some(*b)),
            _ => None,
        },
    }
}

/// The elements `a[i..]` as strings, or nothing.
fn str_list_exec(a: &Vec<Json>, i: usize) -> (r: Option<Vec<String>>)
    requires
        i <= a@.len(),
    ensures
        match r {
            Some(v) => str_list(jview_seq(a@.skip(i as int))) == Some(v.deep_view()),
            None => str_list(jview_seq(a@.skip(i as int))) is None,
        },
    decreases a@.len() - i,
{
    if i == a.len() {
        proof {
            assert(a@.skip(i as int) =~= Seq::<Json>::empty());
            assert(jview_seq(Seq::<Json>::empty()) == Seq::<JVal>::empty());
        }
        let out: Vec<String> = Vec::new();
        proof {
            assert(out.deep_view() =~= Seq::<Seq<char>>::empty());
        }
        Some(out)
    } else {
        proof {
            assert(a@.skip(i as int)[0] == a@[i as int]);
            assert(a@.skip(i as int).drop_first() =~= a@.skip(i as int + 1));
            assert(jview_seq(a@.skip(i as int))[0] == jview(a@[i as int]));
            assert(jview_seq(a@.skip(i as int)).drop_first() =~= jview_seq(a@.skip(i as int + 1)));
        }
        match &a[i] {
            Json::Str(s) => match str_list_exec(a, i + 1) {
                Some(r) => {
                    let ghost rv = r.deep_view();
                    let mut r = r;
                    r.insert(0, chars_to_string(s));
                    proof {
                        assert(r.deep_view() =~= seq![s@] + rv);
                    }
                    Some(r)
                },
                None => None,
            },
            _ => None,
        }
    }
}

/// A required member holding an array of strings.
fn get_str_list_field(m: &Vec<(Vec<char>, Json)>, k: &Vec<char>) -> (r: Option<Vec<String>>)
    ensures
        match r {
            Some(v) => str_list_field(jview_membs(m@), k@) == Some(v.deep_view()),
            None => str_list_field(jview_membs(m@), k@) is None,
        },
{
    match jget(m, k) {
        None => None,
        Some(idx) => match &m[idx].1 {
            Json::Arr(a) => {
                proof {
                    assert(a@.skip(0) =~= a@);
                }
                str_list_exec(a, 0)
            },
            _ => None,
        },
    }
}

/// The members `m[i..]` as string pairs, or nothing.
fn str_pairs_exec(m: &Vec<(Vec<char>, Json)>, i: usize) -> (r: Option<Vec<(String, String)>>)
    requires
        i <= m@.len(),
    ensures
        match r {
            Some(v) => str_pairs(jview_membs(m@.skip(i as int))) == Some(v.deep_view()),
            None => str_pairs(jview_membs(m@.skip(i as int))) is None,
        },
    decreases m@.len() - i,
{
    if i == m.len() {
        proof {
            assert(m@.skip(i as int) =~= Seq::<(Vec<char>, Json)>::empty());
            assert(jview_membs(Seq::<(Vec<char>, Json)>::empty()) == Seq::<(
                Seq<char>,
                JVal,
            )>::empty());
        }
        let out: Vec<(String, String)> = Vec::new();
        proof {
            assert(out.deep_view() =~= Seq::<(Seq<char>, Seq<char>)>::empty());
        }
        Some(out)
    } else {
        proof {
            assert(m@.skip(i as int)[0] == m@[i as int]);
            assert(m@.skip(i as int).drop_first() =~= m@.skip(i as int + 1));
            assert(jview_membs(m@.skip(i as int))[0] == (m@[i as int].0@, jview(m@[i as int].1)));
            assert(jview_membs(m@.skip(i as int)).drop_first() =~= jview_membs(
                m@.skip(i as int + 1),
            ));
        }
        match &m[i].1 {
            Json::Str(s) => match str_pairs_exec(m, i + 1) {
                Some(r) => {
                    let ghost rv = r.deep_view();
                    let key = chars_to_string(&m[i].0);
                    let val = chars_to_string(s);
                    let mut r = r;
                    r.insert(0, (key, val));
                    proof {
                        assert(r.deep_view() =~= seq![(m@[i as int].0@, s@)] + rv);
                    }
                    Some(r)
                },
                None => None,
            },
            _ => None,
        }
    }
}


/// Extract a welcome payload.
fn ext_welcome(v: &Json) -> (r: Option<WelcomeEventData>)
    ensures
        match r {
            Some(d) => spec_ext_welcome(jview(*v)) == Some(d.deep_view()),
            None => spec_ext_welcome(jview(*v)) is None,
        },
{
    match v {
        Json::Obj(m) => match get_str_field(m, &str_chars("server")) {
            Some(server) => Some(WelcomeEventData { server }),
            None => None,
        },
        _ => None,
    }
}

/// Extract a user-join payload.
fn ext_user_join(v: &Json) -> (r: Option<UserJoinData>)
    ensures
        match r {
            Some(d) => spec_ext_user_join(jview(*v)) == Some(d.deep_view()),
            None => spec_ext_user_join(jview(*v)) is None,
        },
{
    match v {
        Json::Obj(m) => {
            let oc = get_u64_field(m, &str_chars("originatingChannel"));
            let un = get_str_field(m, &str_chars("username"));
            let rl = get_str_list_field(m, &str_chars("roles"));
            let id = get_u64_field(m, &str_chars("id"));
            match (oc, un, rl, id) {
                (Some(originating_channel), Some(username), Some(roles), Some(id)) => Some(
                    UserJoinData { originating_channel, username, roles, id },
                ),
                _ => None,
            }
        },
        _ => None,
    }
}

/// Extract a user-leave payload.
fn ext_user_leave(v: &Json) -> (r: Option<UserLeaveData>)
    ensures
        match r {
            Some(d) => spec_ext_user_leave(jview(*v)) == Some(d.deep_view()),
            None => spec_ext_user_leave(jview(*v)) is None,
        },
{
    match v {
        Json::Obj(m) => {
            let oc = get_u64_field(m, &str_chars("originatingChannel"));
            let un = get_str_field(m, &str_chars("username"));
            let id = get_u64_field(m, &str_chars("id"));
            match (oc, un, id) {
                (Some(originating_channel), Some(username), Some(id)) => Some(
                    UserLeaveData { originating_channel, username, id },
                ),
                _ => None,
            }
        },
        _ => None,
    }
}

/// Extract the user record of a timeout payload.
fn ext_timeout_user(v: &Json) -> (r: Option<TimeoutUserData>)
    ensures
        match r {
            Some(d) => spec_ext_timeout_user(jview(*v)) == Some(d.deep_view()),
            None => spec_ext_timeout_user(jview(*v)) is None,
        },
{
    match v {
        Json::Obj(m) => {
            let un = get_str_field(m, &str_chars("user_name"));
            let ui = get_u32_field(m, &str_chars("user_id"));
            let ur = get_str_list_field(m, &str_chars("user_roles"));
            match (un, ui, ur) {
                (Some(user_name), Some(user_id), Some(user_roles)) => Some(
                    TimeoutUserData { user_name, user_id, user_roles },
                ),
                _ => None,
            }
        },
        _ => None,
    }
}

/// Extract a timeout payload.
fn ext_timeout(v: &Json) -> (r: Option<TimeoutData>)
    ensures
        match r {
            Some(d) => spec_ext_timeout(jview(*v)) == Some(d.deep_view()),
            None => spec_ext_timeout(jview(*v)) is None,
        },
{
    match v {
        Json::Obj(m) => match jget(m, &str_chars("user")) {
            Some(idx) => match ext_timeout_user(&m[idx].1) {
                Some(user) => Some(TimeoutData { user }),
                None => None,
            },
            None => None,
        },
        _ => None,
    }
}

/// Extract a moderator record.
fn ext_moderator(v: &Json) -> (r: Option<ModeratorData>)
    ensures
        match r {
            Some(d) => spec_ext_moderator(jview(*v)) == Some(d.deep_view()),
            None => spec_ext_moderator(jview(*v)) is None,
        },
{
    match v {
        Json::Obj(m) => {
            let un = get_str_field(m, &str_chars("user_name"));
            let ui = get_u32_field(m, &str_chars("user_id"));
            let ur = get_str_list_field(m, &str_chars("user_roles"));
            let ul = get_u32_field(m, &str_chars("user_level"));
            match (un, ui, ur, ul) {
                (Some(user_name), Some(user_id), Some(user_roles), Some(user_level)) => Some(
                    ModeratorData { user_name, user_id, user_roles, user_level },
                ),
                _ => None,
            }
        },
        _ => None,
    }
}

/// Extract a purge payload.
fn ext_purge(v: &Json) -> (r: Option<PurgeUserData>)
    ensures
        match r {
            Some(d) => spec_ext_purge(jview(*v)) == Some(d.deep_view()),
            None => spec_ext_purge(jview(*v)) is None,
        },
{
    match v {
        Json::Obj(m) => match get_u32_field(m, &str_chars("user_id")) {
            Some(user_id) => match jget(m, &str_chars("moderator")) {
                None => Some(PurgeUserData { moderator: None, user_id }),
                Some(idx) => match &m[idx].1 {
                    Json::Null => Some(PurgeUserData { moderator: None, user_id }),
                    mv => match ext_moderator(mv) {
                        Some(moderator) => Some(
                            PurgeUserData { moderator: Some(moderator), user_id },
                        ),
                        None => None,
                    },
                },
            },
            None => None,
        },
        _ => None,
    }
}

/// Extract emoticon coordinates.
fn ext_coords(v: &Json) -> (r: Option<ChatMessageEmoticonCoordsData>)
    ensures
        match r {
            Some(d) => spec_ext_coords(jview(*v)) == Some(d),
            None => spec_ext_coords(jview(*v)) is None,
        },
{
    match v {
        Json::Obj(m) => {
            let x = get_u16_field(m, &str_chars("x"));
            let y = get_u16_field(m, &str_chars("y"));
            let w = get_u16_field(m, &str_chars("width"));
            let h = get_u16_field(m, &str_chars("height"));
            match (x, y, w, h) {
                (Some(x), Some(y), Some(width), Some(height)) => Some(
                    ChatMessageEmoticonCoordsData { x, y, width, height },
                ),
                _ => None,
            }
        },
        _ => None,
    }
}

/// Extract chat message metadata.
fn ext_meta(v: &Json) -> (r: Option<ChatMessageMeta>)
    ensures
        match r {
            Some(d) => spec_ext_meta(jview(*v)) == Some(d),
            None => spec_ext_meta(jview(*v)) is None,
        },
{
    match v {
        Json::Obj(m) => {
            let w = get_opt_bool_field(m, &str_chars("whisper"));
            let me = get_opt_bool_field(m, &str_chars("me"));
            let c = get_opt_bool_field(m, &str_chars("censored"));
            match (w, me, c) {
                (Some(whisper), Some(me), Some(censored)) => Some(
                    ChatMessageMeta { whisper, me, censored },
                ),
                _ => None,
            }
        },
        _ => None,
    }
}

/// Extract one message fragment.
fn ext_fragment(v: &Json) -> (r: Option<ChatMessageMessage>)
    ensures
        match r {
            Some(d) => spec_ext_fragment(jview(*v)) == Some(d.deep_view()),
            None => spec_ext_fragment(jview(*v)) is None,
        },
{
    match v {
        Json::Obj(m) => {
            let ts = match get_chars_field(m, &str_chars("type")) {
                Some(t) => t,
                None => {
                    return None;
                },
            };
            let message_type = if chars_eq(&ts, &str_chars("text")) {
                ChatMessageType::Text
            } else if chars_eq(&ts, &str_chars("tag")) {
                ChatMessageType::Tag
            } else if chars_eq(&ts, &str_chars("emoticon")) {
                ChatMessageType::Emoticon
            } else if chars_eq(&ts, &str_chars("link")) {
                ChatMessageType::Link
            } else {
                return None;
            };
            let data = get_opt_str_field(m, &str_chars("data"));
            let text = get_opt_str_field(m, &str_chars("text"));
            let url = get_opt_str_field(m, &str_chars("url"));
            let id = get_opt_u32_field(m, &str_chars("id"));
            let source = get_opt_str_field(m, &str_chars("source"));
            let (data, text, url, id, source) = match (data, text, url, id, source) {
                (Some(d), Some(t), Some(u), Some(i), Some(s)) => (d, t, u, i, s),
                _ => {
                    return None;
                },
            };
            let coords = match jget(m, &str_chars("coords")) {
                None => None,
                Some(idx) => match &m[idx].1 {
                    Json::Null => None,
                    cv => match ext_coords(cv) {
                        Some(c) => Some(c),
                        None => {
                            return None;
                        },
                    },
                },
            };
            let alt = match jget(m, &str_chars("alt")) {
                None => None,
                Some(idx) => match &m[idx].1 {
                    Json::Null => None,
                    Json::Obj(am) => {
                        proof {
                            assert(am@.skip(0) =~= am@);
                        }
                        match str_pairs_exec(am, 0) {
                            Some(p) => Some(p),
                            None => {
                                return None;
                            },
                        }
                    },
                    _ => {
                        return None;
                    },
                },
            };
            Some(ChatMessageMessage { message_type, data, text, url, id, source, coords, alt })
        },
        _ => None,
    }
}

/// The fragments `a[i..]`, or nothing.
fn frag_list_exec(a: &Vec<Json>, i: usize) -> (r: Option<Vec<ChatMessageMessage>>)
    requires
        i <= a@.len(),
    ensures
        match r {
            Some(v) => spec_frag_list(jview_seq(a@.skip(i as int))) == Some(v.deep_view()),
            None => spec_frag_list(jview_seq(a@.skip(i as int))) is None,
        },
    decreases a@.len() - i,
{
    if i == a.len() {
        proof {
            assert(a@.skip(i as int) =~= Seq::<Json>::empty());
            assert(jview_seq(Seq::<Json>::empty()) == Seq::<JVal>::empty());
        }
        let out: Vec<ChatMessageMessage> = Vec::new();
        proof {
            assert(out.deep_view() =~= Seq::<ChatMessageMessageV>::empty());
        }
        Some(out)
    } else {
        proof {
            assert(a@.skip(i as int)[0] == a@[i as int]);
            assert(a@.skip(i as int).drop_first() =~= a@.skip(i as int + 1));
            assert(jview_seq(a@.skip(i as int))[0] == jview(a@[i as int]));
            assert(jview_seq(a@.skip(i as int)).drop_first() =~= jview_seq(a@.skip(i as int + 1)));
        }
        match ext_fragment(&a[i]) {
            Some(f) => match frag_list_exec(a, i + 1) {
                Some(r) => {
                    let ghost rv = r.deep_view();
                    let ghost fv = f.deep_view();
                    let mut r = r;
                    r.insert(0, f);
                    proof {
                        assert(r.deep_view() =~= seq![fv] + rv);
                    }
                    Some(r)
                },
                None => None,
            },
            None => None,
        }
    }
}

/// Extract the body of a chat message.
fn ext_msg_data(v: &Json) -> (r: Option<ChatMessageMessageData>)
    ensures
        match r {
            Some(d) => spec_ext_msg_data(jview(*v)) == Some(d.deep_view()),
            None => spec_ext_msg_data(jview(*v)) is None,
        },
{
    match v {
        Json::Obj(m) => {
            let fi = match jget(m, &str_chars("message")) {
                Some(idx) => idx,
                None => {
                    return None;
                },
            };
            let mi = match jget(m, &str_chars("meta")) {
                Some(idx) => idx,
                None => {
                    return None;
                },
            };
            match &m[fi].1 {
                Json::Arr(a) => {
                    proof {
                        assert(a@.skip(0) =~= a@);
                    }
                    let message = match frag_list_exec(a, 0) {
                        Some(f) => f,
                        None => {
                            return None;
                        },
                    };
                    let meta = match ext_meta(&m[mi].1) {
                        Some(x) => x,
                        None => {
                            return None;
                        },
                    };
                    Some(ChatMessageMessageData { message, meta })
                },
                _ => None,
            }
        },
        _ => None,
    }
}

/// Extract a chat-message payload.
fn ext_chat_message(v: &Json) -> (r: Option<ChatMessageEventData>)
    ensures
        match r {
            Some(d) => spec_ext_chat_message(jview(*v)) == Some(d.deep_view()),
            None => spec_ext_chat_message(jview(*v)) is None,
        },
{
    match v {
        Json::Obj(m) => {
            let channel = get_u32_field(m, &str_chars("channel"));
            let id = get_str_field(m, &str_chars("id"));
            let user_name = get_str_field(m, &str_chars("user_name"));
            let user_id = get_u32_field(m, &str_chars("user_id"));
            let user_roles = get_str_list_field(m, &str_chars("user_roles"));
            let user_level = get_u64_field(m, &str_chars("user_level"));
            let user_avatar = get_str_field(m, &str_chars("user_avatar"));
            match (channel, id, user_name, user_id, user_roles, user_level, user_avatar) {
                (
                    Some(channel),
                    Some(id),
                    Some(user_name),
                    Some(user_id),
                    Some(user_roles),
                    Some(user_level),
                    Some(user_avatar),
                ) => {
                    let mi = match jget(m, &str_chars("message")) {
                        Some(idx) => idx,
                        None => {
                            return None;
                        },
                    };
                    let target = match get_opt_str_field(m, &str_chars("target")) {
                        Some(t) => t,
                        None => {
                            return None;
                        },
                    };
                    match ext_msg_data(&m[mi].1) {
                        Some(message) => Some(
                            ChatMessageEventData {
                                channel,
                                id,
                                user_name,
                                user_id,
                                user_roles,
                                user_level,
                                user_avatar,
                                message,
                                target,
                            },
                        ),
                        None => None,
                    }
                },
                _ => None,
            }
        },
        _ => None,
    }
}

/// Classify a parsed event frame by its tag.
fn classify_event(m: &Vec<(Vec<char>, Json)>) -> (r: Option<Packet>)
    ensures
        match r {
            Some(p) => spec_classify_event(jview_membs(m@)) == Some(p.deep_view()),
            None => spec_classify_event(jview_membs(m@)) is None,
        },
{
    let tag = match get_chars_field(m, &key_event_chars()) {
        Some(t) => t,
        None => {
            return None;
        },
    };
    if chars_eq(&tag, &str_chars("ChatMessage")) {
        match jget(m, &key_data_chars()) {
            Some(idx) => match ext_chat_message(&m[idx].1) {
                Some(x) => Some(Packet::Event(EventPayload::ChatMessage(x))),
                None => None,
            },
            None => None,
        }
    } else if chars_eq(&tag, &str_chars("UserJoin")) {
        match jget(m, &key_data_chars()) {
            Some(idx) => match ext_user_join(&m[idx].1) {
                Some(x) => Some(Packet::Event(EventPayload::UserJoin(x))),
                None => None,
            },
            None => None,
        }
    } else if chars_eq(&tag, &str_chars("UserLeave")) {
        match jget(m, &key_data_chars()) {
            Some(idx) => match ext_user_leave(&m[idx].1) {
                Some(x) => Some(Packet::Event(EventPayload::UserLeave(x))),
                None => None,
            },
            None => None,
        }
    } else if chars_eq(&tag, &str_chars("UserTimeout")) {
        match jget(m, &key_data_chars()) {
            Some(idx) => match ext_timeout(&m[idx].1) {
                Some(x) => Some(Packet::Event(EventPayload::UserTimeout(x))),
                None => None,
            },
            None => None,
        }
    } else if chars_eq(&tag, &str_chars("PurgeMessage")) {
        match jget(m, &key_data_chars()) {
            Some(idx) => match ext_purge(&m[idx].1) {
                Some(x) => Some(Packet::Event(EventPayload::PurgeMessage(x))),
                None => None,
            },
            None => None,
        }
    } else if chars_eq(&tag, &str_chars("WelcomeEvent")) {
        match jget(m, &key_data_chars()) {
            Some(idx) => match ext_welcome(&m[idx].1) {
                Some(x) => Some(Packet::Event(EventPayload::Welcome(x))),
                None => None,
            },
            None => None,
        }
    } else if chars_eq(&tag, &str_chars("ClearMessages")) {
        Some(Packet::Event(EventPayload::ClearMessages))
    } else if chars_eq(&tag, &str_chars("DeleteMessage")) {
        Some(Packet::Event(EventPayload::DeleteMessage))
    } else {
        Some(Packet::Event(EventPayload::Ignored))
    }
}

/// Classify a parsed method frame.
fn classify_method(m: &Vec<(Vec<char>, Json)>) -> (r: Option<Packet>)
    ensures
        match r {
            Some(p) => spec_classify_method(jview_membs(m@)) == Some(p.deep_view()),
            None => spec_classify_method(jview_membs(m@)) is None,
        },
{
    let mi = match jget(m, &key_method_chars()) {
        Some(idx) => idx,
        None => {
            return None;
        },
    };
    let ai = match jget(m, &key_arguments_chars()) {
        Some(idx) => idx,
        None => {
            return None;
        },
    };
    let ii = match jget(m, &key_id_chars()) {
        Some(idx) => idx,
        None => {
            return None;
        },
    };
    match (&m[mi].1, &m[ai].1, &m[ii].1) {
        (Json::Str(method), Json::Arr(a), Json::Num(id)) => {
            proof {
                assert(a@.skip(0) =~= a@);
            }
            match str_list_exec(a, 0) {
                Some(arguments) => Some(
                    Packet::Method { method: chars_to_string(method), arguments, id: *id },
                ),
                None => None,
            }
        },
        _ => None,
    }
}

/// Classify a parsed frame.
fn classify_packet(j: &Json) -> (r: Option<Packet>)
    ensures
        match r {
            Some(p) => spec_classify(jview(*j)) == Some(p.deep_view()),
            None => spec_classify(jview(*j)) is None,
        },
{
    match j {
        Json::Obj(m) => {
            let t = match get_chars_field(m, &key_type_chars()) {
                Some(t) => t,
                None => {
                    return None;
                },
            };
            if chars_eq(&t, &key_method_chars()) {
                classify_method(m)
            } else if chars_eq(&t, &lit_reply_chars()) {
                Some(Packet::Reply)
            } else if chars_eq(&t, &key_event_chars()) {
                classify_event(m)
            } else {
                None
            }
        },
        _ => None,
    }
}

/// Decode one frame of text into a packet, or nothing if the frame
/// falls outside the wire grammar and must be discarded.
pub fn decode(text: &str) -> (r: Option<Packet>)
    ensures
        match r {
            Some(p) => spec_decode(text@) == Some(p.deep_view()),
            None => spec_decode(text@) is None,
        },
{
    let cs = str_chars(text);
    match json_parse(&cs) {
        None => None,
        Some(j) => classify_packet(&j),
    }
}

// ---------------------------------------------------------------------------
// The codec round-trip law
// ---------------------------------------------------------------------------

/// String arguments survive the trip through JSON values.
proof fn lemma_str_list_round(args: Seq<Seq<char>>)
    ensures
        str_list(strs_to_jvals(args)) == Some(args),
    decreases args.len(),
{
    if args.len() == 0 {
        assert(strs_to_jvals(args).len() == 0);
        assert(str_list(strs_to_jvals(args)) == Some(Seq::<Seq<char>>::empty()));
        assert(args =~= Seq::<Seq<char>>::empty());
    } else {
        lemma_str_list_round(args.drop_first());
        assert(strs_to_jvals(args)[0] == JVal::Str(args[0]));
        assert(strs_to_jvals(args).drop_first() =~= strs_to_jvals(args.drop_first()));
        assert(seq![args[0]] + args.drop_first() =~= args);
    }
}

/// Round trip: encoding a method frame and decoding the text yields
/// the identical method name, argument sequence, and id.
pub proof fn lemma_method_round_trip(method: Seq<char>, args: Seq<Seq<char>>, id: u64)
    ensures
        spec_decode(spec_encode_method(method, args, id)) == Some(
            PacketV::Method { method, arguments: args, id },
        ),
{
    let fv = method_frame_val(method, strs_to_jvals(args), id);
    lemma_print_parse_json(fv);
    let mm = seq![
        (key_type(), JVal::Str(key_method())),
        (key_method(), JVal::Str(method)),
        (key_arguments(), JVal::Arr(strs_to_jvals(args))),
        (key_id(), JVal::Num(id)),
    ];
    let m1 = mm.drop_first();
    let m2 = m1.drop_first();
    let m3 = m2.drop_first();
    assert(m1[0] == mm[1] && m1[1] == mm[2] && m1[2] == mm[3] && m1.len() == 3);
    assert(m2[0] == mm[2] && m2[1] == mm[3] && m2.len() == 2);
    assert(m3[0] == mm[3] && m3.len() == 1);
    // The four keys differ pairwise in length, so each lookup stops at
    // its own member.
    assert(jlookup(mm, key_type()) == Some(JVal::Str(key_method())));
    assert(jlookup(m1, key_method()) == Some(JVal::Str(method)));
    assert(jlookup(mm, key_method()) == Some(JVal::Str(method)));
    assert(jlookup(m2, key_arguments()) == Some(JVal::Arr(strs_to_jvals(args))));
    assert(jlookup(m1, key_arguments()) == Some(JVal::Arr(strs_to_jvals(args))));
    assert(jlookup(mm, key_arguments()) == Some(JVal::Arr(strs_to_jvals(args))));
    assert(jlookup(m3, key_id()) == Some(JVal::Num(id)));
    assert(jlookup(m2, key_id()) == Some(JVal::Num(id)));
    assert(jlookup(m1, key_id()) == Some(JVal::Num(id)));
    assert(jlookup(mm, key_id()) == Some(JVal::Num(id)));
    lemma_str_list_round(args);
    assert(spec_classify_method(mm) == Some(PacketV::Method { method, arguments: args, id }));
    assert(str_field(mm, key_type()) == Some(key_method()));
    assert(spec_classify(fv) == Some(PacketV::Method { method, arguments: args, id }));
}

} // verus!
