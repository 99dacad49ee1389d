//! The client engine: the subscribe handshake, sending, and the decision made
//! for every buffer that the background reader pulls off the receive pipe.
//!
//! The client here is pure state: its id, its pipe paths, and its lifecycle
//! state. The runtime around the library writes the frames these functions
//! hand back, reads the pipes, and runs the reader thread; every byte it
//! writes or interprets comes from or goes through a function of this module.

use vstd::prelude::*;

use crate::cap;
use crate::message::{bytes_as_chars, chars_as_bytes, clone_bytes, string_to_bytes, MessageView, OctopipesMessage};
use crate::options::OctopipesOptions;
use crate::serializer;
use crate::{OctopipesCapError, OctopipesCapMessage, OctopipesError, OctopipesProtocolVersion, OctopipesState};

verus! {

/// The message that carries a client's control payload on the common access
/// pipe: the client as origin, no remote, a ttl of 60, no options.
pub open spec fn cap_request_view(id: Seq<char>, payload: Seq<u8>) -> MessageView {
    MessageView {
        origin: chars_as_bytes(id),
        remote: Seq::<u8>::empty(),
        ttl: 60,
        options: 0,
        data: payload,
    }
}

/// The message a client sends to a remote: the client as origin.
pub open spec fn data_message_view(
    id: Seq<char>,
    remote: Seq<char>,
    ttl: u8,
    options: u8,
    data: Seq<u8>,
) -> MessageView {
    MessageView {
        origin: chars_as_bytes(id),
        remote: chars_as_bytes(remote),
        ttl,
        options,
        data,
    }
}

/// The acknowledgement synthesized for a received message that asks for one:
/// addressed back to the message's origin, with the same ttl, the ACK bit,
/// and no payload.
pub open spec fn ack_view(id: Seq<char>, received: MessageView) -> MessageView {
    MessageView {
        origin: chars_as_bytes(id),
        remote: received.origin,
        ttl: received.ttl,
        options: 2,
        data: Seq::<u8>::empty(),
    }
}

/// A client of the broker: its id, the path of the common access pipe, the
/// two pipe paths assigned on subscription, and its lifecycle state.
pub struct OctopipesClient {
    /// The client's id; its bytes must fit a 255-byte name field.
    pub id: String,
    /// The protocol version the client speaks.
    pub version: OctopipesProtocolVersion,
    /// The path of the common access pipe.
    pub cap_pipe: String,
    /// The path the client writes its outgoing messages to; assigned on
    /// subscription.
    pub tx_pipe: Option<String>,
    /// The path the client's incoming messages arrive on; assigned on
    /// subscription.
    pub rx_pipe: Option<String>,
    /// The lifecycle state.
    pub state: OctopipesState,
}

impl OctopipesClient {
    /// The client invariant: the id fits a 255-byte name field.
    pub open spec fn wf(&self) -> bool {
        chars_as_bytes(self.id@).len() <= 255
    }

    /// Builds a client in the initialized state, with no pipes assigned.
    pub fn new(client_id: String, cap_pipe: String, version: OctopipesProtocolVersion) -> (r:
        OctopipesClient)
        ensures
            r.id == client_id,
            r.version == version,
            r.cap_pipe == cap_pipe,
            r.tx_pipe is None,
            r.rx_pipe is None,
            r.state == OctopipesState::Initialized,
    {
        OctopipesClient {
            id: client_id,
            version,
            cap_pipe,
            tx_pipe: None,
            rx_pipe: None,
            state: OctopipesState::Initialized,
        }
    }

    /// Builds the frame that subscribes this client to the given groups, to
    /// be written on the common access pipe. Subscribing is allowed only
    /// before the first subscription or after an unsubscription; a group list
    /// that the payload cannot carry (more than 255 names, or a name of more
    /// than 255 bytes) earns `BadPacket`.
    pub fn subscription_frame(&self, subscription_list: &Vec<String>) -> (r: Result<
        Vec<u8>,
        OctopipesError,
    >)
        requires
            self.wf(),
        ensures
            !(self.state == OctopipesState::Initialized || self.state
                == OctopipesState::Unsubscribed) ==> r == Err::<Vec<u8>, OctopipesError>(
                OctopipesError::NotUnsubscribed,
            ),
            (self.state == OctopipesState::Initialized || self.state
                == OctopipesState::Unsubscribed) ==> {
                if subscription_list@.len() > 255 || exists|j: int|
                    0 <= j < subscription_list@.len() && chars_as_bytes(
                        (#[trigger] subscription_list@[j])@,
                    ).len() > 255 {
                    r == Err::<Vec<u8>, OctopipesError>(OctopipesError::BadPacket)
                } else {
                    r matches Ok(frame) && frame@ == serializer::frame_bytes(
                        cap_request_view(
                            self.id@,
                            cap::subscribe_payload(
                                subscription_list@.map_values(|g: String| chars_as_bytes(g@)),
                            ),
                        ),
                    )
                }
            },
    {
        match self.state {
            OctopipesState::Initialized => {},
            OctopipesState::Unsubscribed => {},
            _ => {
                return Err(OctopipesError::NotUnsubscribed);
            },
        }
        if subscription_list.len() > 255 {
            return Err(OctopipesError::BadPacket);
        }
        let mut j: usize = 0;
        while j < subscription_list.len()
            invariant
                self.state == OctopipesState::Initialized || self.state
                    == OctopipesState::Unsubscribed,
                subscription_list@.len() <= 255,
                j <= subscription_list@.len(),
                forall|t: int|
                    0 <= t < j ==> chars_as_bytes((#[trigger] subscription_list@[t])@).len()
                        <= 255,
            decreases subscription_list@.len() - j,
        {
            let gbytes = string_to_bytes(subscription_list[j].as_str());
            if gbytes.len() > 255 {
                return Err(OctopipesError::BadPacket);
            }
            j = j + 1;
        }
        let payload = cap::encode_subscribe(subscription_list);
        proof {
            let gs = subscription_list@.map_values(|g: String| chars_as_bytes(g@));
            cap::lemma_groups_body_len(gs);
        }
        self.cap_frame(payload)
    }

    /// Builds the frame that unsubscribes this client, to be written on the
    /// common access pipe. Allowed only while subscribed or running.
    pub fn unsubscription_frame(&self) -> (r: Result<Vec<u8>, OctopipesError>)
        requires
            self.wf(),
        ensures
            !(self.state == OctopipesState::Subscribed || self.state == OctopipesState::Running)
                ==> r == Err::<Vec<u8>, OctopipesError>(OctopipesError::NotSubscribed),
            (self.state == OctopipesState::Subscribed || self.state == OctopipesState::Running)
                ==> (r matches Ok(frame) && frame@ == serializer::frame_bytes(
                cap_request_view(self.id@, cap::unsubscribe_payload()),
            )),
    {
        match self.state {
            OctopipesState::Subscribed => {},
            OctopipesState::Running => {},
            _ => {
                return Err(OctopipesError::NotSubscribed);
            },
        }
        let payload = cap::encode_unsubscribe();
        self.cap_frame(payload)
    }

    /// Wraps a control payload in a message from this client and encodes it.
    fn cap_frame(&self, payload: Vec<u8>) -> (r: Result<Vec<u8>, OctopipesError>)
        requires
            self.wf(),
            payload@.len() + 272 <= usize::MAX,
        ensures
            r matches Ok(frame) && frame@ == serializer::frame_bytes(
                cap_request_view(self.id@, payload@),
            ),
    {
        let origin_bytes = string_to_bytes(self.id.as_str());
        let message = OctopipesMessage::from_bytes(
            self.version,
            origin_bytes,
            Vec::new(),
            60,
            OctopipesOptions::empty(),
            payload,
        );
        match serializer::encode_message(&message) {
            Ok(frame) => Ok(frame),
            Err(_) => vstd::pervasive::unreached(),
        }
    }

    /// Records the broker's Assignment reply: on success the two assigned
    /// pipe paths are stored and the client becomes subscribed; an Assignment
    /// carrying an error is handed back without a state change; any other
    /// reply earns `BadPacket`.
    pub fn handle_assignment(&mut self, data: Vec<u8>) -> (r: Result<
        OctopipesCapError,
        OctopipesError,
    >)
        ensures
            final(self).id == old(self).id,
            final(self).version == old(self).version,
            final(self).cap_pipe == old(self).cap_pipe,
            ({
                match serializer::decode_spec(data@) {
                    Err(e) => r == Err::<OctopipesCapError, OctopipesError>(e) && *final(self)
                        == *old(self),
                    Ok(v) => {
                        if v.data.len() == 0 || !(OctopipesCapMessage::spec_from_u8(v.data[0])
                            matches Some(OctopipesCapMessage::Assignment)) {
                            r == Err::<OctopipesCapError, OctopipesError>(
                                OctopipesError::BadPacket,
                            ) && *final(self) == *old(self)
                        } else {
                            match cap::decode_assignment_spec(v.data) {
                                Err(e) => r == Err::<OctopipesCapError, OctopipesError>(e) && *final(self) == *old(self),
                                Ok(t) => {
                                    if t.0 != 0 {
                                        r == Ok::<OctopipesCapError, OctopipesError>(
                                            OctopipesCapError::spec_from_u8(t.0).unwrap(),
                                        ) && *final(self) == *old(self)
                                    } else {
                                        r == Ok::<OctopipesCapError, OctopipesError>(
                                            OctopipesCapError::NoError,
                                        ) && final(self).state == OctopipesState::Subscribed && (
                                        final(self).tx_pipe matches Some(p) && p@
                                            == bytes_as_chars(t.1.unwrap())) && (final(self).rx_pipe matches Some(p) && p@ == bytes_as_chars(
                                            t.2.unwrap(),
                                        ))
                                    }
                                },
                            }
                        }
                    },
                }
            }),
    {
        let response = match serializer::decode_message(data) {
            Err(e) => {
                return Err(e);
            },
            Ok(m) => m,
        };
        let message_type = match cap::get_cap_message_type(response.get_data()) {
            Err(e) => {
                return Err(e);
            },
            Ok(t) => t,
        };
        match message_type {
            OctopipesCapMessage::Assignment => {},
            _ => {
                return Err(OctopipesError::BadPacket);
            },
        }
        match cap::decode_assignment(response.get_data()) {
            Err(e) => Err(e),
            Ok((cap_error, pipe_tx, pipe_rx)) => {
                match cap_error {
                    OctopipesCapError::NoError => {
                        self.tx_pipe = pipe_tx;
                        self.rx_pipe = pipe_rx;
                        self.state = OctopipesState::Subscribed;
                        Ok(OctopipesCapError::NoError)
                    },
                    _ => Ok(cap_error),
                }
            },
        }
    }

    /// Marks the reader loop as running. Valid only while subscribed with
    /// both pipes assigned; the runtime spawns the reader thread after this
    /// succeeds.
    pub fn loop_start(&mut self) -> (r: Result<(), OctopipesError>)
        ensures
            final(self).id == old(self).id,
            final(self).version == old(self).version,
            final(self).cap_pipe == old(self).cap_pipe,
            final(self).tx_pipe == old(self).tx_pipe,
            final(self).rx_pipe == old(self).rx_pipe,
            old(self).state == OctopipesState::Running ==> r == Err::<(), OctopipesError>(
                OctopipesError::ThreadAlreadyRunning,
            ) && *final(self) == *old(self),
            old(self).state == OctopipesState::Subscribed && (old(self).tx_pipe is None || old(self).rx_pipe is None) ==> r == Err::<(), OctopipesError>(OctopipesError::Uninitialized)
                && *final(self) == *old(self),
            old(self).state == OctopipesState::Subscribed && old(self).tx_pipe is Some && old(self).rx_pipe is Some ==> r == Ok::<(), OctopipesError>(()) && final(self).state
                == OctopipesState::Running,
            !(old(self).state == OctopipesState::Subscribed || old(self).state
                == OctopipesState::Running) ==> r == Err::<(), OctopipesError>(
                OctopipesError::NotSubscribed,
            ) && *final(self) == *old(self),
    {
        match self.state {
            OctopipesState::Subscribed => {
                if self.rx_pipe.is_none() || self.tx_pipe.is_none() {
                    return Err(OctopipesError::Uninitialized);
                }
                self.state = OctopipesState::Running;
                Ok(())
            },
            OctopipesState::Running => Err(OctopipesError::ThreadAlreadyRunning),
            _ => Err(OctopipesError::NotSubscribed),
        }
    }

    /// Marks the reader loop as stopped when it runs, and does nothing
    /// otherwise. The runtime joins the reader thread after this returns.
    pub fn loop_stop(&mut self) -> (r: Result<(), OctopipesError>)
        ensures
            r == Ok::<(), OctopipesError>(()),
            final(self).id == old(self).id,
            final(self).version == old(self).version,
            final(self).cap_pipe == old(self).cap_pipe,
            final(self).tx_pipe == old(self).tx_pipe,
            final(self).rx_pipe == old(self).rx_pipe,
            old(self).state == OctopipesState::Running ==> final(self).state
                == OctopipesState::Stopped,
            old(self).state != OctopipesState::Running ==> final(self).state == old(self).state,
    {
        match self.state {
            OctopipesState::Running => {
                self.state = OctopipesState::Stopped;
                Ok(())
            },
            _ => Ok(()),
        }
    }

    /// Marks the client as unsubscribed, once its Unsubscription has been
    /// written on the common access pipe.
    pub fn finish_unsubscribe(&mut self)
        ensures
            final(self).id == old(self).id,
            final(self).version == old(self).version,
            final(self).cap_pipe == old(self).cap_pipe,
            final(self).tx_pipe == old(self).tx_pipe,
            final(self).rx_pipe == old(self).rx_pipe,
            final(self).state == OctopipesState::Unsubscribed,
    {
        self.state = OctopipesState::Unsubscribed;
    }

    /// Builds the frame that sends `data` to `remote`, with no options and no
    /// time-to-live, to be written on the client's transmit pipe.
    pub fn send(&self, remote: &String, data: Vec<u8>) -> (r: Result<Vec<u8>, OctopipesError>)
        requires
            self.wf(),
        ensures
            send_outcome(*self, remote@, data@, 0, 0, r),
    {
        self.send_ex(remote, data, 0, OctopipesOptions::empty())
    }

    /// Builds the frame that sends `data` to `remote` with the given
    /// time-to-live and options, to be written on the client's transmit pipe.
    /// Valid only while subscribed or running with a transmit pipe assigned;
    /// a remote name of more than 255 bytes, or a payload whose frame cannot
    /// fit in memory, earns `BadPacket`.
    pub fn send_ex(&self, remote: &String, data: Vec<u8>, ttl: u8, options: OctopipesOptions) -> (r:
        Result<Vec<u8>, OctopipesError>)
        requires
            self.wf(),
        ensures
            send_outcome(*self, remote@, data@, ttl, options@, r),
    {
        proof {
            use_type_invariant(&options);
        }
        match self.state {
            OctopipesState::Subscribed => {},
            OctopipesState::Running => {},
            _ => {
                return Err(OctopipesError::NotSubscribed);
            },
        }
        if self.tx_pipe.is_none() {
            return Err(OctopipesError::NotSubscribed);
        }
        let remote_bytes = string_to_bytes(remote.as_str());
        if remote_bytes.len() > 255 {
            return Err(OctopipesError::BadPacket);
        }
        let origin_bytes = string_to_bytes(self.id.as_str());
        if data.len() > usize::MAX - 17 - 255 - 255 {
            return Err(OctopipesError::BadPacket);
        }
        let message = OctopipesMessage::from_bytes(
            self.version,
            origin_bytes,
            remote_bytes,
            ttl,
            options,
            data,
        );
        match serializer::encode_message(&message) {
            Ok(frame) => Ok(frame),
            Err(_) => vstd::pervasive::unreached(),
        }
    }

    /// The decision made for every buffer pulled off the receive pipe: the
    /// decoded message or the decode error, and — when the message asks for
    /// an acknowledgement — the acknowledgement frame to write back on the
    /// transmit pipe.
    pub fn handle_received(&self, data: Vec<u8>) -> (r: (
        Result<OctopipesMessage, OctopipesError>,
        Option<Vec<u8>>,
    ))
        requires
            self.wf(),
        ensures
            ({
                match serializer::decode_spec(data@) {
                    Err(e) => r.0 == Err::<OctopipesMessage, OctopipesError>(e) && r.1 is None,
                    Ok(v) => (r.0 matches Ok(m) && m@ == v) && {
                        if v.options & 1 == 0 {
                            r.1 is None
                        } else {
                            r.1 matches Some(ack) && ack@ == serializer::frame_bytes(
                                ack_view(self.id@, v),
                            )
                        }
                    },
                }
            }),
    {
        let message = match serializer::decode_message(data) {
            Err(e) => {
                return (Err(e), None);
            },
            Ok(m) => m,
        };
        if message.isset_option(OctopipesOptions::rck()) {
            let origin_bytes = string_to_bytes(self.id.as_str());
            let ack = OctopipesMessage::from_bytes(
                self.version,
                origin_bytes,
                clone_bytes(message.get_origin_bytes()),
                message.get_ttl(),
                OctopipesOptions::ack(),
                Vec::new(),
            );
            match serializer::encode_message(&ack) {
                Ok(frame) => (Ok(message), Some(frame)),
                Err(_) => vstd::pervasive::unreached(),
            }
        } else {
            (Ok(message), None)
        }
    }
}

/// The subscribe handshake end to end: the frame a client builds for an ASCII
/// id and ASCII group names decodes on the broker's side into a message whose
/// origin reads back as the id and whose payload parses into exactly the
/// requested group names.
pub proof fn lemma_subscribe_handshake(id: Seq<char>, groups: Seq<Seq<char>>)
    requires
        vstd::utf8::is_ascii_chars(id),
        1 <= id.len() <= 255,
        groups.len() <= 255,
        forall|j: int|
            0 <= j < groups.len() ==> vstd::utf8::is_ascii_chars(#[trigger] groups[j]) && groups[
                j
            ].len() <= 255,
    ensures
        ({
            let gs = groups.map_values(|g: Seq<char>| chars_as_bytes(g));
            let request = cap_request_view(id, cap::subscribe_payload(gs));
            &&& serializer::decode_spec(serializer::frame_bytes(request)) == Ok::<
                MessageView,
                OctopipesError,
            >(request)
            &&& bytes_as_chars(request.origin) == id
            &&& cap::decode_subscribe_spec(request.data) == Ok::<Seq<Seq<u8>>, OctopipesError>(gs)
            &&& forall|j: int| 0 <= j < gs.len() ==> bytes_as_chars(#[trigger] gs[j]) == groups[j]
        }),
{
    let gs = groups.map_values(|g: Seq<char>| chars_as_bytes(g));
    let request = cap_request_view(id, cap::subscribe_payload(gs));
    vstd::utf8::is_ascii_chars_encode_utf8(id);
    assert(request.origin.len() == id.len());
    assert forall|j: int| 0 <= j < gs.len() implies (#[trigger] gs[j]).len() <= 255 by {
        vstd::utf8::is_ascii_chars_encode_utf8(groups[j]);
    }
    cap::lemma_groups_body_len(gs);
    assert(serializer::msg_wf(request));
    assert(!serializer::ick_set(request.options)) by {
        assert(0u8 & 4 == 0) by (bit_vector);
    }
    serializer::lemma_round_trip(request);
    cap::lemma_subscribe_round_trip(gs);
    cap::lemma_ascii_chars_round_trip(id);
    assert forall|j: int| 0 <= j < gs.len() implies bytes_as_chars(#[trigger] gs[j])
        == groups[j] by {
        cap::lemma_ascii_chars_round_trip(groups[j]);
    }
}

/// Everything `send_ex` promises: when and how it refuses, and the exact
/// frame it yields otherwise.
pub open spec fn send_outcome(
    c: OctopipesClient,
    remote: Seq<char>,
    data: Seq<u8>,
    ttl: u8,
    options: u8,
    r: Result<Vec<u8>, OctopipesError>,
) -> bool {
    if !(c.state == OctopipesState::Subscribed || c.state == OctopipesState::Running) {
        r == Err::<Vec<u8>, OctopipesError>(OctopipesError::NotSubscribed)
    } else if c.tx_pipe is None {
        r == Err::<Vec<u8>, OctopipesError>(OctopipesError::NotSubscribed)
    } else if chars_as_bytes(remote).len() > 255 {
        r == Err::<Vec<u8>, OctopipesError>(OctopipesError::BadPacket)
    } else if data.len() + 527 > usize::MAX {
        r == Err::<Vec<u8>, OctopipesError>(OctopipesError::BadPacket)
    } else {
        r matches Ok(frame) && frame@ == serializer::frame_bytes(
            data_message_view(c.id@, remote, ttl, options, data),
        )
    }
}

} // verus!
