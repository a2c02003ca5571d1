//! The chat session engine: endpoint selection, the authentication
//! handshake, packet sequencing, and event-to-handler dispatch.
//!
//! The engine is transport-free. It produces outbound frames into an
//! outbox and consumes inbound frames one at a time; the caller owns
//! the socket, drains the outbox after each step, and feeds back what
//! the socket yields.

use vstd::prelude::*;
use crate::chat::handler::{ChatHandler, ChatResult};
use crate::codec::{
    decode, encode_auth, encode_method, auth_args_val, method_name, method_name_chars,
    chars_to_string, spec_encode_auth, spec_encode_method, strs_to_jvals, u64_string, EventPayload,
    Packet, PacketV, spec_decode,
};
use crate::common::MixerError;
use crate::json::{print_jval, JVal};
use crate::codec::method_frame_val;
use crate::packets::chat::{
    APIChatResponse, ChatMessageEventPacket, EventType, MethodType, PacketType, PurgeUserPacket,
    TimeoutPacket, UserJoinPacket, UserLeavePacket,
};
use crate::packets::common::{Channel, User};
use crate::pool::EndpointPool;

verus! {

broadcast use vstd::seq::group_seq_axioms;

/// The three values the authentication packet is built from.
pub struct SessionIdentity {
    pub user_id: u32,
    pub channel_id: u32,
    pub auth_key: String,
}

/// Where the session stands in its lifecycle.
#[derive(Clone, Copy, Debug, PartialEq, Eq, Structural)]
pub enum SessionPhase {
    Unconnected,
    Connecting,
    Authenticating,
    Joined,
    Closed,
}

/// One outbound packet as the session recorded it: what was framed,
/// under which id, and the exact frame text.
pub struct SentRecord {
    pub method: Seq<char>,
    pub arguments: Seq<JVal>,
    pub id: u64,
    pub frame: Seq<char>,
}

/// What the transport handed the session.
#[derive(Debug)]
pub enum InboundFrame {
    Text(String),
    Ping(Vec<u8>),
    Close,
    Unsupported,
}

/// What the session asks the transport to do after one inbound frame.
#[derive(Debug)]
pub enum FrameOutcome {
    Continue,
    EchoPing(Vec<u8>),
    Stop,
}

/// The note logged when a frame cannot be parsed.
pub open spec fn bad_frame_note(t: Seq<char>) -> Seq<char> {
    "Could not parse text into JSON: "@ + t
}

/// The note logged when a handler reports an error.
pub open spec fn handler_error_note(e: Seq<char>) -> Seq<char> {
    "An internal handler error has occurred: "@ + e
}

/// Connect to the chat service and route inbound events to a handler.
pub struct MixerChat<H> {
    pub channel: String,
    pub packet_id: u64,
    pub channel_data: Channel,
    pub chat: APIChatResponse,
    pub me: User,
    pub handler: H,
    pub pool: EndpointPool,
    pub phase: SessionPhase,
    pub outbox: Vec<String>,
    pub diagnostics: Vec<String>,
    pub sent_log: Ghost<Seq<SentRecord>>,
}

impl<H> MixerChat<H> {
    /// Every packet this session ever framed, in order.
    pub open spec fn sent(&self) -> Seq<SentRecord> {
        self.sent_log@
    }

    /// The id the next outbound packet will carry.
    pub open spec fn spec_packet_id(&self) -> u64 {
        self.packet_id
    }

    /// The frames built and not yet handed to the transport.
    pub open spec fn outbox_view(&self) -> Seq<Seq<char>> {
        self.outbox.deep_view()
    }

    /// The operator-visible log entries not yet drained.
    pub open spec fn diagnostics_view(&self) -> Seq<Seq<char>> {
        self.diagnostics.deep_view()
    }

    pub open spec fn spec_phase(&self) -> SessionPhase {
        self.phase
    }

    pub open spec fn spec_pool(&self) -> EndpointPool {
        self.pool
    }

    pub open spec fn spec_channel_id(&self) -> u32 {
        self.channel_data.id
    }

    pub open spec fn spec_user_id(&self) -> u32 {
        self.me.channel.user_id
    }

    pub open spec fn spec_auth_key(&self) -> Seq<char> {
        self.chat.authkey@
    }

    /// The session's records are consistent: the id counter equals the
    /// number of packets framed, the i-th packet carries id i, and
    /// every recorded frame is the encoding of its record.
    pub open spec fn wf(&self) -> bool {
        &&& self.packet_id as int == self.sent_log@.len()
        &&& forall|i: int| 0 <= i < self.sent_log@.len() ==> (#[trigger] self.sent_log@[i]).id == i
        &&& forall|i: int|
            0 <= i < self.sent_log@.len() ==> (#[trigger] self.sent_log@[i]).frame == print_jval(
                method_frame_val(self.sent_log@[i].method, self.sent_log@[i].arguments, self.sent_log@[i].id),
            )
        &&& self.pool.wf()
    }
}

/// Everything except the send-side state (id counter, records, outbox)
/// is the same in both sessions.
pub open spec fn same_except_send<H>(pre: MixerChat<H>, post: MixerChat<H>) -> bool {
    &&& post.phase == pre.phase
    &&& post.pool == pre.pool
    &&& post.handler == pre.handler
    &&& post.me == pre.me
    &&& post.chat == pre.chat
    &&& post.channel_data == pre.channel_data
    &&& post.channel == pre.channel
    &&& post.diagnostics == pre.diagnostics
}

/// One method frame was built and recorded, under the pre-state's
/// packet id, and nothing else changed.
pub open spec fn sends_one<H>(
    pre: MixerChat<H>,
    post: MixerChat<H>,
    method: Seq<char>,
    args: Seq<JVal>,
) -> bool {
    &&& post.packet_id == pre.packet_id + 1
    &&& post.sent_log@ == pre.sent_log@.push(
        SentRecord {
            method,
            arguments: args,
            id: pre.packet_id,
            frame: print_jval(method_frame_val(method, args, pre.packet_id)),
        },
    )
    &&& post.outbox_view() == pre.outbox_view().push(
        print_jval(method_frame_val(method, args, pre.packet_id)),
    )
    &&& same_except_send(pre, post)
}

/// How a handler's result is applied to the session: `Nothing` leaves
/// it unchanged, `Error` appends one log entry, and `Message` frames
/// exactly one `msg` command under the next packet id. The handler's
/// own state is free to change.
pub open spec fn result_applied<H>(
    pre: MixerChat<H>,
    post: MixerChat<H>,
    res: ChatResult,
) -> bool {
    &&& post.phase == pre.phase
    &&& post.pool == pre.pool
    &&& post.me == pre.me
    &&& post.chat == pre.chat
    &&& post.channel_data == pre.channel_data
    &&& post.channel == pre.channel
    &&& match res {
        ChatResult::Nothing => {
            &&& post.packet_id == pre.packet_id
            &&& post.sent_log@ == pre.sent_log@
            &&& post.outbox_view() == pre.outbox_view()
            &&& post.diagnostics_view() == pre.diagnostics_view()
        },
        ChatResult::Error(e) => {
            &&& post.packet_id == pre.packet_id
            &&& post.sent_log@ == pre.sent_log@
            &&& post.outbox_view() == pre.outbox_view()
            &&& post.diagnostics_view() == pre.diagnostics_view().push(handler_error_note(e@))
        },
        ChatResult::Message(t) => {
            &&& post.packet_id == pre.packet_id + 1
            &&& post.outbox_view() == pre.outbox_view().push(
                spec_encode_method(method_name(MethodType::Msg), seq![t@], pre.packet_id),
            )
            &&& post.sent_log@ == pre.sent_log@.push(
                SentRecord {
                    method: method_name(MethodType::Msg),
                    arguments: strs_to_jvals(seq![t@]),
                    id: pre.packet_id,
                    frame: spec_encode_method(
                        method_name(MethodType::Msg),
                        seq![t@],
                        pre.packet_id,
                    ),
                },
            )
            &&& post.diagnostics_view() == pre.diagnostics_view()
        },
    }
}

impl<H: ChatHandler> MixerChat<H> {
    /// A fresh session over an already-resolved identity. Fails before
    /// connecting when the bootstrap response carries no endpoints.
    pub fn new(
        channel: String,
        me: User,
        channel_data: Channel,
        chat: APIChatResponse,
        handler: H,
    ) -> (r: Result<MixerChat<H>, MixerError>)
        ensures
            chat.endpoints@.len() == 0 ==> r matches Err(MixerError::ExhaustedPool),
            chat.endpoints@.len() > 0 ==> (r matches Ok(c) && {
                &&& c.wf()
                &&& c.spec_packet_id() == 0
                &&& c.sent() == Seq::<SentRecord>::empty()
                &&& c.outbox_view() == Seq::<Seq<char>>::empty()
                &&& c.diagnostics_view() == Seq::<Seq<char>>::empty()
                &&& c.spec_phase() == SessionPhase::Unconnected
                &&& c.spec_pool().endpoints_view() == chat.endpoints.deep_view()
                &&& c.spec_pool().served() == 0
                &&& c.spec_channel_id() == channel_data.id
                &&& c.spec_user_id() == me.channel.user_id
                &&& c.spec_auth_key() == chat.authkey@
                &&& c.handler == handler
            }),
    {
        if chat.endpoints.len() == 0 {
            return Err(MixerError::ExhaustedPool);
        }
        let n = chat.endpoints.len();
        let mut eps: Vec<String> = Vec::new();
        let mut i: usize = 0;
        while i < n
            invariant
                i <= n,
                n == chat.endpoints@.len(),
                eps@.len() == i,
                forall|k: int| 0 <= k < i ==> eps@[k] == chat.endpoints@[k],
            decreases n - i,
        {
            eps.push(chat.endpoints[i].clone());
            i = i + 1;
        }
        proof {
            assert forall|k: int| 0 <= k < n implies eps.deep_view()[k]
                == chat.endpoints.deep_view()[k] by {
                assert(eps@[k] == chat.endpoints@[k]);
            }
            assert(eps.deep_view() =~= chat.endpoints.deep_view());
        }
        let pool = EndpointPool::new(eps);
        let c = MixerChat {
            channel,
            packet_id: 0,
            channel_data,
            chat,
            me,
            handler,
            pool,
            phase: SessionPhase::Unconnected,
            outbox: Vec::new(),
            diagnostics: Vec::new(),
            sent_log: Ghost(Seq::empty()),
        };
        proof {
            assert(c.outbox_view() =~= Seq::<Seq<char>>::empty());
            assert(c.diagnostics_view() =~= Seq::<Seq<char>>::empty());
        }
        Ok(c)
    }

    /// The identity the authentication packet is built from.
    pub fn current_identity(&self) -> (r: SessionIdentity)
        ensures
            r.user_id == self.spec_user_id(),
            r.channel_id == self.spec_channel_id(),
            r.auth_key@ == self.spec_auth_key(),
    {
        SessionIdentity {
            user_id: self.me.channel.user_id,
            channel_id: self.channel_data.id,
            auth_key: self.chat.authkey.clone(),
        }
    }

    /// The id the next outbound packet will carry.
    pub fn packet_id(&self) -> (r: u64)
        ensures
            r == self.spec_packet_id(),
    {
        self.packet_id
    }

    /// Where the session stands.
    pub fn phase(&self) -> (r: SessionPhase)
        ensures
            r == self.spec_phase(),
    {
        self.phase
    }

    /// How many frames wait in the outbox.
    pub fn outbox_len(&self) -> (r: usize)
        ensures
            r == self.outbox_view().len(),
    {
        self.outbox.len()
    }

    /// Hand the built frames to the caller, oldest first, leaving the
    /// outbox empty.
    pub fn take_outbox(&mut self) -> (r: Vec<String>)
        ensures
            r.deep_view() == old(self).outbox_view(),
            final(self).outbox_view() == Seq::<Seq<char>>::empty(),
            final(self).packet_id == old(self).packet_id,
            final(self).sent_log@ == old(self).sent_log@,
            final(self).wf() == old(self).wf(),
            final(self).phase == old(self).phase,
            final(self).diagnostics_view() == old(self).diagnostics_view(),
            final(self).handler == old(self).handler,
            final(self).pool == old(self).pool,
    {
        let mut out: Vec<String> = Vec::new();
        core::mem::swap(&mut out, &mut self.outbox);
        proof {
            assert(self.outbox.deep_view() =~= Seq::<Seq<char>>::empty());
        }
        out
    }

    /// Hand the pending log entries to the caller, oldest first.
    pub fn take_diagnostics(&mut self) -> (r: Vec<String>)
        ensures
            r.deep_view() == old(self).diagnostics_view(),
            final(self).diagnostics_view() == Seq::<Seq<char>>::empty(),
            final(self).packet_id == old(self).packet_id,
            final(self).sent_log@ == old(self).sent_log@,
            final(self).outbox_view() == old(self).outbox_view(),
            final(self).wf() == old(self).wf(),
            final(self).phase == old(self).phase,
            final(self).handler == old(self).handler,
            final(self).pool == old(self).pool,
    {
        let mut out: Vec<String> = Vec::new();
        core::mem::swap(&mut out, &mut self.diagnostics);
        proof {
            assert(self.diagnostics.deep_view() =~= Seq::<Seq<char>>::empty());
        }
        out
    }

    /// Select the endpoint for the next connection attempt: the pool's
    /// next entry, cyclically. The session moves to `Connecting`; with
    /// an exhausted pool it fails and closes instead.
    pub fn connect_endpoint(&mut self) -> (r: Result<String, MixerError>)
        requires
            old(self).wf(),
        ensures
            final(self).wf(),
            final(self).packet_id == old(self).packet_id,
            final(self).sent_log@ == old(self).sent_log@,
            final(self).outbox_view() == old(self).outbox_view(),
            final(self).diagnostics_view() == old(self).diagnostics_view(),
            final(self).handler == old(self).handler,
            final(self).spec_pool().endpoints_view() == old(self).spec_pool().endpoints_view(),
            old(self).spec_pool().endpoints_view().len() == 0 ==> (r matches Err(
                MixerError::ExhaustedPool,
            ) && final(self).phase == SessionPhase::Closed),
            old(self).spec_pool().endpoints_view().len() > 0 ==> {
                &&& r matches Ok(e) && e@ == old(self).spec_pool().endpoints_view()[
                    old(self).spec_pool().served() as int % old(self).spec_pool().endpoints_view().len() as int
                ]
                &&& final(self).spec_pool().served() == old(self).spec_pool().served() + 1
                &&& final(self).phase == SessionPhase::Connecting
            },
    {
        match self.pool.rotate() {
            Ok(e) => {
                self.phase = SessionPhase::Connecting;
                Ok(e)
            },
            Err(e) => {
                self.phase = SessionPhase::Closed;
                Err(e)
            },
        }
    }

    /// Frame one method packet under the next id and record it.
    fn send_method(&mut self, method: MethodType, arguments: Vec<String>)
        requires
            old(self).wf(),
            old(self).packet_id < u64::MAX,
        ensures
            final(self).wf(),
            sends_one(
                *old(self),
                *final(self),
                method_name(method),
                strs_to_jvals(arguments.deep_view()),
            ),
    {
        let id = self.packet_id;
        let name_chars = method_name_chars(method);
        let name = chars_to_string(&name_chars);
        let text = encode_method(name.as_str(), &arguments, id);
        let ghost tv = text@;
        self.outbox.push(text);
        self.packet_id = id + 1;
        proof {
            self.sent_log@ = self.sent_log@.push(
                SentRecord {
                    method: method_name(method),
                    arguments: strs_to_jvals(arguments.deep_view()),
                    id,
                    frame: tv,
                },
            );
        }
        proof {
            assert(self.outbox.deep_view() =~= old(self).outbox.deep_view().push(tv));
            assert forall|i: int| 0 <= i < self.sent_log@.len() implies (#[trigger] self.sent_log@[
                i
            ]).id == i by {
                if i < old(self).sent_log@.len() {
                    assert(self.sent_log@[i] == old(self).sent_log@[i]);
                }
            }
        }
    }

    /// Join the connected channel: send the authentication packet built
    /// from the session identity, fire and forget, and stand `Joined`.
    pub fn join(&mut self) -> (r: Result<(), MixerError>)
        requires
            old(self).wf(),
            old(self).packet_id < u64::MAX,
        ensures
            final(self).wf(),
            r is Ok,
            final(self).packet_id == old(self).packet_id + 1,
            final(self).outbox_view() == old(self).outbox_view().push(
                spec_encode_auth(
                    old(self).spec_channel_id(),
                    old(self).spec_user_id(),
                    old(self).spec_auth_key(),
                    old(self).spec_packet_id(),
                ),
            ),
            final(self).sent_log@ == old(self).sent_log@.push(
                SentRecord {
                    method: method_name(MethodType::Auth),
                    arguments: auth_args_val(
                        old(self).spec_channel_id(),
                        old(self).spec_user_id(),
                        old(self).spec_auth_key(),
                    ),
                    id: old(self).packet_id,
                    frame: spec_encode_auth(
                        old(self).spec_channel_id(),
                        old(self).spec_user_id(),
                        old(self).spec_auth_key(),
                        old(self).spec_packet_id(),
                    ),
                },
            ),
            final(self).phase == SessionPhase::Joined,
            final(self).diagnostics_view() == old(self).diagnostics_view(),
            final(self).handler == old(self).handler,
            final(self).pool == old(self).pool,
    {
        let id = self.packet_id;
        let channel_id = self.channel_data.id;
        let user_id = self.me.channel.user_id;
        self.phase = SessionPhase::Authenticating;
        let text = encode_auth(channel_id, user_id, self.chat.authkey.as_str(), id);
        let ghost tv = text@;
        self.outbox.push(text);
        self.packet_id = id + 1;
        // The handshake is fire-and-forget: no acknowledgement is
        // awaited before the session counts as joined.
        self.phase = SessionPhase::Joined;
        proof {
            self.sent_log@ = self.sent_log@.push(
                SentRecord {
                    method: method_name(MethodType::Auth),
                    arguments: auth_args_val(channel_id, user_id, old(self).chat.authkey@),
                    id,
                    frame: tv,
                },
            );
        }
        proof {
            assert(self.outbox.deep_view() =~= old(self).outbox.deep_view().push(tv));
            assert forall|i: int| 0 <= i < self.sent_log@.len() implies (#[trigger] self.sent_log@[
                i
            ]).id == i by {
                if i < old(self).sent_log@.len() {
                    assert(self.sent_log@[i] == old(self).sent_log@[i]);
                }
            }
        }
        Ok(())
    }

    /// Send a message to the connected channel, or whisper it when a
    /// target user is supplied.
    pub fn send_message(&mut self, message: &str, target: Option<String>) -> (r: Result<
        (),
        MixerError,
    >)
        requires
            old(self).wf(),
            old(self).packet_id < u64::MAX,
        ensures
            final(self).wf(),
            r is Ok,
            target matches Some(t) ==> sends_one(
                *old(self),
                *final(self),
                method_name(MethodType::Whisper),
                strs_to_jvals(seq![t@, message@]),
            ),
            target is None ==> sends_one(
                *old(self),
                *final(self),
                method_name(MethodType::Msg),
                strs_to_jvals(seq![message@]),
            ),
    {
        let mut arguments: Vec<String> = Vec::new();
        match target {
            Some(t) => {
                let ghost tv = t@;
                arguments.push(t);
                arguments.push(String::from_str(message));
                proof {
                    assert(arguments.deep_view() =~= seq![tv, message@]);
                }
                self.send_method(MethodType::Whisper, arguments);
            },
            None => {
                arguments.push(String::from_str(message));
                proof {
                    assert(arguments.deep_view() =~= seq![message@]);
                }
                self.send_method(MethodType::Msg, arguments);
            },
        }
        Ok(())
    }

    /// Time out a user from chat for the given number of seconds; the
    /// count travels as its decimal text.
    pub fn timeout_user(&mut self, user: &str, time: u16) -> (r: Result<(), MixerError>)
        requires
            old(self).wf(),
            old(self).packet_id < u64::MAX,
        ensures
            final(self).wf(),
            r is Ok,
            sends_one(
                *old(self),
                *final(self),
                method_name(MethodType::Timeout),
                strs_to_jvals(seq![user@, crate::json::dec_of(time as nat)]),
            ),
    {
        let mut arguments: Vec<String> = Vec::new();
        arguments.push(String::from_str(user));
        arguments.push(u64_string(time as u64));
        proof {
            assert(arguments.deep_view() =~= seq![user@, crate::json::dec_of(time as nat)]);
        }
        self.send_method(MethodType::Timeout, arguments);
        Ok(())
    }

    /// Purge a user's messages from chat.
    pub fn purge_user(&mut self, user: &str) -> (r: Result<(), MixerError>)
        requires
            old(self).wf(),
            old(self).packet_id < u64::MAX,
        ensures
            final(self).wf(),
            r is Ok,
            sends_one(
                *old(self),
                *final(self),
                method_name(MethodType::Purge),
                strs_to_jvals(seq![user@]),
            ),
    {
        let mut arguments: Vec<String> = Vec::new();
        arguments.push(String::from_str(user));
        proof {
            assert(arguments.deep_view() =~= seq![user@]);
        }
        self.send_method(MethodType::Purge, arguments);
        Ok(())
    }

    /// Delete a single message by its id.
    pub fn delete_message(&mut self, message: &str) -> (r: Result<(), MixerError>)
        requires
            old(self).wf(),
            old(self).packet_id < u64::MAX,
        ensures
            final(self).wf(),
            r is Ok,
            sends_one(
                *old(self),
                *final(self),
                method_name(MethodType::DeleteMessage),
                strs_to_jvals(seq![message@]),
            ),
    {
        let mut arguments: Vec<String> = Vec::new();
        arguments.push(String::from_str(message));
        proof {
            assert(arguments.deep_view() =~= seq![message@]);
        }
        self.send_method(MethodType::DeleteMessage, arguments);
        Ok(())
    }

    /// Clear every message in the channel.
    pub fn clear_chat(&mut self) -> (r: Result<(), MixerError>)
        requires
            old(self).wf(),
            old(self).packet_id < u64::MAX,
        ensures
            final(self).wf(),
            r is Ok,
            sends_one(
                *old(self),
                *final(self),
                method_name(MethodType::ClearMessages),
                strs_to_jvals(Seq::<Seq<char>>::empty()),
            ),
    {
        let arguments: Vec<String> = Vec::new();
        proof {
            assert(arguments.deep_view() =~= Seq::<Seq<char>>::empty());
        }
        self.send_method(MethodType::ClearMessages, arguments);
        Ok(())
    }

    /// Request up to `amount` messages of history. More than 100 is
    /// rejected before any packet is framed.
    pub fn get_history(&mut self, amount: u8) -> (r: Result<(), MixerError>)
        requires
            old(self).wf(),
            old(self).packet_id < u64::MAX,
        ensures
            final(self).wf(),
            amount > 100 ==> (r matches Err(MixerError::InvalidArgument(e)) && e@
                == "cannot get more than 100 messages in history"@ && *final(self) == *old(self)),
            amount <= 100 ==> r is Ok && sends_one(
                *old(self),
                *final(self),
                method_name(MethodType::History),
                strs_to_jvals(seq![crate::json::dec_of(amount as nat)]),
            ),
    {
        if amount > 100 {
            return Err(
                MixerError::InvalidArgument(
                    String::from_str("cannot get more than 100 messages in history"),
                ),
            );
        }
        let mut arguments: Vec<String> = Vec::new();
        arguments.push(u64_string(amount as u64));
        proof {
            assert(arguments.deep_view() =~= seq![crate::json::dec_of(amount as nat)]);
        }
        self.send_method(MethodType::History, arguments);
        Ok(())
    }

    /// Append one log entry.
    fn push_diag(&mut self, note: String)
        ensures
            final(self).diagnostics_view() == old(self).diagnostics_view().push(note@),
            final(self).packet_id == old(self).packet_id,
            final(self).sent_log@ == old(self).sent_log@,
            final(self).outbox_view() == old(self).outbox_view(),
            final(self).wf() == old(self).wf(),
            final(self).phase == old(self).phase,
            final(self).handler == old(self).handler,
            final(self).pool == old(self).pool,
            final(self).me == old(self).me,
            final(self).chat == old(self).chat,
            final(self).channel_data == old(self).channel_data,
            final(self).channel == old(self).channel,
    {
        let ghost nv = note@;
        self.diagnostics.push(note);
        proof {
            assert(self.diagnostics.deep_view() =~= old(self).diagnostics.deep_view().push(nv));
        }
    }

    /// Route one decoded event to the one handler capability its tag
    /// selects; tags outside the table reach no handler at all.
    fn dispatch_event(&mut self, ev: EventPayload) -> (res: ChatResult)
        ensures
            final(self).packet_id == old(self).packet_id,
            final(self).sent_log@ == old(self).sent_log@,
            final(self).outbox_view() == old(self).outbox_view(),
            final(self).diagnostics_view() == old(self).diagnostics_view(),
            final(self).wf() == old(self).wf(),
            final(self).phase == old(self).phase,
            final(self).pool == old(self).pool,
            final(self).me == old(self).me,
            final(self).chat == old(self).chat,
            final(self).channel_data == old(self).channel_data,
            final(self).channel == old(self).channel,
    {
        match ev {
            EventPayload::ChatMessage(data) => self.handler.on_message(
                ChatMessageEventPacket {
                    packet_type: PacketType::Event,
                    event: EventType::ChatMessage,
                    data,
                },
            ),
            EventPayload::UserJoin(data) => self.handler.on_user_join(
                UserJoinPacket {
                    packet_type: PacketType::Event,
                    event: EventType::UserJoin,
                    data,
                },
            ),
            EventPayload::UserLeave(data) => self.handler.on_user_leave(
                UserLeavePacket {
                    packet_type: PacketType::Event,
                    event: EventType::UserLeave,
                    data,
                },
            ),
            EventPayload::UserTimeout(data) => self.handler.on_user_timeout(
                TimeoutPacket {
                    packet_type: PacketType::Event,
                    event: EventType::UserTimeout,
                    data,
                },
            ),
            EventPayload::PurgeMessage(data) => self.handler.on_user_purged(
                PurgeUserPacket {
                    packet_type: PacketType::Event,
                    event: EventType::PurgeMessage,
                    data,
                },
            ),
            EventPayload::ClearMessages => self.handler.on_chat_cleared(),
            EventPayload::DeleteMessage => self.handler.on_message_deleted(),
            EventPayload::Welcome(_) => ChatResult::Nothing,
            EventPayload::Ignored => ChatResult::Nothing,
        }
    }

    /// Fire the connect callback and apply its result. The caller
    /// invokes this once, right after `join`.
    pub fn notify_connected(&mut self) -> (r: Result<(), MixerError>)
        requires
            old(self).wf(),
            old(self).packet_id < u64::MAX,
        ensures
            final(self).wf(),
            r is Ok,
            exists|res: ChatResult| #[trigger] result_applied(*old(self), *final(self), res),
    {
        let res = self.handler.on_connect();
        let ghost resg = res;
        let r = handle_handler_result(res, self);
        proof {
            assert(result_applied(*old(self), *self, resg));
        }
        r
    }

    /// Consume one inbound frame. A ping is echoed, a close ends the
    /// loop gracefully, text is decoded and dispatched, and whatever
    /// falls outside the wire grammar is logged and skipped.
    pub fn handle_frame(&mut self, frame: InboundFrame) -> (r: Result<FrameOutcome, MixerError>)
        requires
            old(self).wf(),
            old(self).packet_id < u64::MAX,
        ensures
            final(self).wf(),
            r is Ok,
            frame matches InboundFrame::Ping(p) ==> (r matches Ok(FrameOutcome::EchoPing(q)) && q@
                == p@ && *final(self) == *old(self)),
            frame is Close ==> (r matches Ok(FrameOutcome::Stop) && final(self).phase
                == SessionPhase::Closed && final(self).packet_id == old(self).packet_id && final(self).sent_log@ == old(self).sent_log@ && final(self).outbox_view() == old(self).outbox_view()
                && final(self).diagnostics_view() == old(self).diagnostics_view() && final(self).handler == old(self).handler),
            frame is Unsupported ==> (r matches Ok(FrameOutcome::Continue) && final(self).diagnostics_view() == old(self).diagnostics_view().push("Unhandled packet type!"@)
                && final(self).packet_id == old(self).packet_id && final(self).sent_log@ == old(self).sent_log@ && final(self).outbox_view() == old(self).outbox_view()),
            frame matches InboundFrame::Text(t) ==> (r matches Ok(FrameOutcome::Continue) && {
                ||| (spec_decode(t@) is None && final(self).diagnostics_view() == old(self).diagnostics_view().push(bad_frame_note(t@)) && final(self).packet_id == old(self).packet_id && final(self).sent_log@ == old(self).sent_log@ && final(self).outbox_view()
                    == old(self).outbox_view())
                ||| (spec_decode(t@) matches Some(PacketV::Reply) && *final(self) == *old(self))
                ||| (spec_decode(t@) matches Some(PacketV::Method { .. }) && final(self).diagnostics_view() == old(self).diagnostics_view().push(
                    "Unexpected method packet from server"@,
                ) && final(self).packet_id == old(self).packet_id && final(self).sent_log@ == old(self).sent_log@ && final(self).outbox_view() == old(self).outbox_view())
                ||| (spec_decode(t@) matches Some(PacketV::Event(_)) && exists|res: ChatResult|
                    #[trigger] result_applied(*old(self), *final(self), res))
            }),
    {
        match frame {
            InboundFrame::Ping(p) => Ok(FrameOutcome::EchoPing(p)),
            InboundFrame::Close => {
                self.phase = SessionPhase::Closed;
                Ok(FrameOutcome::Stop)
            },
            InboundFrame::Unsupported => {
                self.push_diag(String::from_str("Unhandled packet type!"));
                Ok(FrameOutcome::Continue)
            },
            InboundFrame::Text(t) => {
                match decode(t.as_str()) {
                    None => {
                        let mut note = String::from_str("Could not parse text into JSON: ");
                        note.append(t.as_str());
                        self.push_diag(note);
                        Ok(FrameOutcome::Continue)
                    },
                    Some(Packet::Reply) => Ok(FrameOutcome::Continue),
                    Some(Packet::Method { .. }) => {
                        self.push_diag(String::from_str("Unexpected method packet from server"));
                        Ok(FrameOutcome::Continue)
                    },
                    Some(Packet::Event(ev)) => {
                        let ghost pre = *self;
                        let res = self.dispatch_event(ev);
                        let ghost mid = *self;
                        let ghost resg = res;
                        handle_handler_result(res, self)?;
                        proof {
                            assert(result_applied(*old(self), *self, resg));
                        }
                        Ok(FrameOutcome::Continue)
                    },
                }
            },
        }
    }
}

/// Apply what a handler asked for: log an error, send a message into
/// the channel under the next packet id, or nothing at all.
pub fn handle_handler_result<H: ChatHandler>(result: ChatResult, chat: &mut MixerChat<H>) -> (r:
    Result<(), MixerError>)
    requires
        old(chat).wf(),
        old(chat).packet_id < u64::MAX,
    ensures
        final(chat).wf(),
        r is Ok,
        final(chat).handler == old(chat).handler,
        result_applied(*old(chat), *final(chat), result),
{
    match result {
        ChatResult::Nothing => Ok(()),
        ChatResult::Error(e) => {
            let mut note = String::from_str("An internal handler error has occurred: ");
            note.append(e.as_str());
            chat.push_diag(note);
            Ok(())
        },
        ChatResult::Message(message) => {
            let r = chat.send_message(message.as_str(), None);
            proof {
                assert(strs_to_jvals(seq![message@]) == strs_to_jvals(seq![message@]));
            }
            r
        },
    }
}

/// The packet-id law: on any well-formed session, the i-th packet ever
/// framed carries id i. So across any sequence of outbound commands
/// the ids observed on the wire increase by exactly one, starting at
/// zero with the authentication packet.
pub proof fn lemma_packet_ids_consecutive<H>(chat: MixerChat<H>)
    requires
        chat.wf(),
    ensures
        forall|i: int| 0 <= i < chat.sent().len() ==> (#[trigger] chat.sent()[i]).id == i,
        forall|i: int|
            0 <= i < chat.sent().len() ==> (#[trigger] chat.sent()[i]).frame == print_jval(
                method_frame_val(chat.sent()[i].method, chat.sent()[i].arguments, i as u64),
            ),
{
}

/// Corollary: between any two packets of one session the ids strictly
/// increase, by exactly one per packet, and the first packet ever
/// framed carries id zero.
pub proof fn lemma_packet_ids_strictly_increasing<H>(chat: MixerChat<H>, i: int, j: int)
    requires
        chat.wf(),
        0 <= i < j < chat.sent().len(),
    ensures
        chat.sent()[i].id < chat.sent()[j].id,
        chat.sent()[j].id - chat.sent()[i].id == j - i,
        chat.sent()[0].id == 0,
{
}

} // verus!
