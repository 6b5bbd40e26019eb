//! The message model: every protocol message kind, its fields, and the
//! builders that construct well-formed message values.

use vstd::prelude::*;

verus! {

/// The message kind, bound to a fixed numeric wire code: READY=0, OKAY=1,
/// DISCONNECT=2, HEARTBEAT=3, REQ=4, REP=5, ERROR=6. The codes are stable
/// wire ABI; [`cmd_code`] is the one place that states them.
#[derive(Debug, PartialEq, Eq, Structural, Clone, Copy)]
pub enum RRMessageCommand {
    READY,
    OKAY,
    DISCONNECT,
    HEARTBEAT,
    REQ,
    REP,
    ERROR,
}

/// The wire code of a command.
pub open spec fn cmd_code(cmd: RRMessageCommand) -> u8 {
    match cmd {
        RRMessageCommand::READY => 0,
        RRMessageCommand::OKAY => 1,
        RRMessageCommand::DISCONNECT => 2,
        RRMessageCommand::HEARTBEAT => 3,
        RRMessageCommand::REQ => 4,
        RRMessageCommand::REP => 5,
        RRMessageCommand::ERROR => 6,
    }
}

impl RRMessageCommand {
    /// The wire code of this command, as sent in the command frame.
    pub fn code(&self) -> (c: u8)
        ensures
            c == cmd_code(*self),
    {
        match self {
            RRMessageCommand::READY => 0,
            RRMessageCommand::OKAY => 1,
            RRMessageCommand::DISCONNECT => 2,
            RRMessageCommand::HEARTBEAT => 3,
            RRMessageCommand::REQ => 4,
            RRMessageCommand::REP => 5,
            RRMessageCommand::ERROR => 6,
        }
    }
}

impl Default for RRMessageCommand {
    fn default() -> (r: Self)
        ensures
            r == RRMessageCommand::OKAY,
    {
        RRMessageCommand::OKAY
    }
}

/// How a message body is encoded, bound to a fixed numeric wire code:
/// NONE=0, TEXT=1, JSON=2, MSGPACK=3. NONE means "no body frame follows."
#[derive(Debug, PartialEq, Eq, Structural, Clone, Copy)]
pub enum MessageFormat {
    NONE,
    TEXT,
    JSON,
    MSGPACK,
}

/// The wire code of a content format.
pub open spec fn format_code(f: MessageFormat) -> u8 {
    match f {
        MessageFormat::NONE => 0,
        MessageFormat::TEXT => 1,
        MessageFormat::JSON => 2,
        MessageFormat::MSGPACK => 3,
    }
}

/// The content format named by a wire byte: 1, 2 and 3 name TEXT, JSON and
/// MSGPACK; every other value, 0 included, maps to NONE.
pub open spec fn format_of_code(b: u8) -> MessageFormat {
    if b == 1 {
        MessageFormat::TEXT
    } else if b == 2 {
        MessageFormat::JSON
    } else if b == 3 {
        MessageFormat::MSGPACK
    } else {
        MessageFormat::NONE
    }
}

impl MessageFormat {
    /// The wire code of this format, as sent in the format frame.
    pub fn code(&self) -> (c: u8)
        ensures
            c == format_code(*self),
    {
        match self {
            MessageFormat::NONE => 0,
            MessageFormat::TEXT => 1,
            MessageFormat::JSON => 2,
            MessageFormat::MSGPACK => 3,
        }
    }

    /// The format named by a wire byte; unrecognized bytes map to NONE.
    pub fn from_code(b: u8) -> (f: MessageFormat)
        ensures
            f == format_of_code(b),
    {
        if b == 1 {
            MessageFormat::TEXT
        } else if b == 2 {
            MessageFormat::JSON
        } else if b == 3 {
            MessageFormat::MSGPACK
        } else {
            MessageFormat::NONE
        }
    }
}

impl Default for MessageFormat {
    fn default() -> (r: Self)
        ensures
            r == MessageFormat::NONE,
    {
        MessageFormat::NONE
    }
}

/// The common envelope fields present on every message.
#[derive(Debug, PartialEq, Clone)]
pub struct MsgMetadata {
    /// Routing identity prefixed by a routing-capable transport; absent on
    /// point-to-point connections.
    pub identity: Option<Vec<u8>>,
    /// The sender's protocol version tag; the empty string is a valid value.
    pub version: String,
    /// Opaque correlation identifier; the empty sequence means "unset."
    pub uid: Vec<u8>,
    /// The message kind; kept in lock-step with the enclosing variant.
    pub cmd: RRMessageCommand,
}

/// The payload fields carried only by REQ, REP and ERROR messages.
#[derive(Debug, PartialEq, Clone)]
pub struct MsgContent {
    /// The destination service or handler; `None` is sent as an empty frame.
    pub target: Option<String>,
    /// How `content` is encoded; NONE means no body frame is sent.
    pub format: MessageFormat,
    /// The raw payload bytes.
    pub content: Vec<u8>,
}

/// A typed protocol message: the tagged union over the seven kinds.
#[derive(Debug, PartialEq, Clone)]
pub enum RRMessage {
    READY(MsgMetadata, Option<String>),
    OKAY(MsgMetadata),
    DISCONNECT(MsgMetadata),
    HEARTBEAT(MsgMetadata),
    REQ(MsgMetadata, MsgContent),
    REP(MsgMetadata, MsgContent),
    ERROR(MsgMetadata, MsgContent),
}

/// The spec-level value of an optional byte vector.
pub open spec fn opt_bytes_view(o: Option<Vec<u8>>) -> Option<Seq<u8>> {
    match o {
        Some(v) => Some(v@),
        None => None,
    }
}

/// The spec-level value of an optional string.
pub open spec fn opt_str_view(o: Option<String>) -> Option<Seq<char>> {
    match o {
        Some(s) => Some(s@),
        None => None,
    }
}

/// The mathematical value of a [`MsgMetadata`].
#[verifier::ext_equal]
pub ghost struct MetaView {
    pub identity: Option<Seq<u8>>,
    pub version: Seq<char>,
    pub uid: Seq<u8>,
    pub cmd: RRMessageCommand,
}

/// The mathematical value of a [`MsgContent`].
#[verifier::ext_equal]
pub ghost struct ContentView {
    pub target: Option<Seq<char>>,
    pub format: MessageFormat,
    pub body: Seq<u8>,
}

/// The mathematical value of an [`RRMessage`].
#[verifier::ext_equal]
pub ghost enum MessageView {
    Ready(MetaView, Option<Seq<char>>),
    Okay(MetaView),
    Disconnect(MetaView),
    Heartbeat(MetaView),
    Req(MetaView, ContentView),
    Rep(MetaView, ContentView),
    Error(MetaView, ContentView),
}

impl View for MsgMetadata {
    type V = MetaView;

    open spec fn view(&self) -> MetaView {
        MetaView {
            identity: opt_bytes_view(self.identity),
            version: self.version@,
            uid: self.uid@,
            cmd: self.cmd,
        }
    }
}

impl DeepView for MsgMetadata {
    type V = MetaView;

    open spec fn deep_view(&self) -> MetaView {
        self@
    }
}

impl View for MsgContent {
    type V = ContentView;

    open spec fn view(&self) -> ContentView {
        ContentView { target: opt_str_view(self.target), format: self.format, body: self.content@ }
    }
}

impl DeepView for MsgContent {
    type V = ContentView;

    open spec fn deep_view(&self) -> ContentView {
        self@
    }
}

impl View for RRMessage {
    type V = MessageView;

    open spec fn view(&self) -> MessageView {
        match self {
            RRMessage::READY(meta, selfid) => MessageView::Ready(meta@, opt_str_view(*selfid)),
            RRMessage::OKAY(meta) => MessageView::Okay(meta@),
            RRMessage::DISCONNECT(meta) => MessageView::Disconnect(meta@),
            RRMessage::HEARTBEAT(meta) => MessageView::Heartbeat(meta@),
            RRMessage::REQ(meta, content) => MessageView::Req(meta@, content@),
            RRMessage::REP(meta, content) => MessageView::Rep(meta@, content@),
            RRMessage::ERROR(meta, content) => MessageView::Error(meta@, content@),
        }
    }
}

impl DeepView for RRMessage {
    type V = MessageView;

    open spec fn deep_view(&self) -> MessageView {
        self@
    }
}

impl MessageView {
    /// The envelope of this message, whatever its kind.
    pub open spec fn meta(self) -> MetaView {
        match self {
            MessageView::Ready(meta, _) => meta,
            MessageView::Okay(meta) => meta,
            MessageView::Disconnect(meta) => meta,
            MessageView::Heartbeat(meta) => meta,
            MessageView::Req(meta, _) => meta,
            MessageView::Rep(meta, _) => meta,
            MessageView::Error(meta, _) => meta,
        }
    }

    /// The command that tags this message's variant.
    pub open spec fn tag(self) -> RRMessageCommand {
        match self {
            MessageView::Ready(_, _) => RRMessageCommand::READY,
            MessageView::Okay(_) => RRMessageCommand::OKAY,
            MessageView::Disconnect(_) => RRMessageCommand::DISCONNECT,
            MessageView::Heartbeat(_) => RRMessageCommand::HEARTBEAT,
            MessageView::Req(_, _) => RRMessageCommand::REQ,
            MessageView::Rep(_, _) => RRMessageCommand::REP,
            MessageView::Error(_, _) => RRMessageCommand::ERROR,
        }
    }

    /// Whether this is one of the content-bearing kinds: REQ, REP or ERROR.
    pub open spec fn is_content(self) -> bool {
        match self {
            MessageView::Req(_, _) => true,
            MessageView::Rep(_, _) => true,
            MessageView::Error(_, _) => true,
            _ => false,
        }
    }

    /// The content of a content-bearing message.
    pub open spec fn content(self) -> ContentView
        recommends
            self.is_content(),
    {
        match self {
            MessageView::Req(_, c) => c,
            MessageView::Rep(_, c) => c,
            MessageView::Error(_, c) => c,
            _ => arbitrary(),
        }
    }

    /// Well-formedness: the envelope's command field equals the tag of the
    /// enclosing variant. The builders establish this by construction.
    pub open spec fn wf(self) -> bool {
        self.meta().cmd == self.tag()
    }
}

/// The message value [`RRMsgHandler::build_rrmsg`] constructs from its
/// arguments: the envelope takes the identity, version and correlation id
/// (an absent id becomes the empty sequence); READY keeps the target as its
/// self-identity; OKAY, DISCONNECT and HEARTBEAT carry the envelope alone;
/// REQ, REP and ERROR add the target and, when given, the format and body.
pub open spec fn spec_build(
    cmd: RRMessageCommand,
    id: Option<Seq<u8>>,
    version: Seq<char>,
    msgid: Option<Seq<u8>>,
    target: Option<Seq<char>>,
    contents: Option<(MessageFormat, Seq<u8>)>,
) -> MessageView {
    let meta = MetaView {
        identity: id,
        version: version,
        uid: match msgid {
            Some(u) => u,
            None => seq![],
        },
        cmd: cmd,
    };
    match cmd {
        RRMessageCommand::READY => MessageView::Ready(meta, target),
        RRMessageCommand::OKAY => MessageView::Okay(meta),
        RRMessageCommand::DISCONNECT => MessageView::Disconnect(meta),
        RRMessageCommand::HEARTBEAT => MessageView::Heartbeat(meta),
        _ => {
            let content = ContentView {
                target: target,
                format: match contents {
                    Some(c) => c.0,
                    None => MessageFormat::NONE,
                },
                body: match contents {
                    Some(c) => c.1,
                    None => seq![],
                },
            };
            match cmd {
                RRMessageCommand::REQ => MessageView::Req(meta, content),
                RRMessageCommand::REP => MessageView::Rep(meta, content),
                _ => MessageView::Error(meta, content),
            }
        },
    }
}

/// The spec-level value of an optional `(format, body)` pair.
pub open spec fn contents_view(contents: Option<(MessageFormat, Vec<u8>)>) -> Option<
    (MessageFormat, Seq<u8>),
> {
    match contents {
        Some(c) => Some((c.0, c.1@)),
        None => None,
    }
}

/// Constructors for every message kind.
pub struct RRMsgHandler;

impl RRMsgHandler {
    /// Builds the message for `cmd` from the given fields; always succeeds.
    /// Fields a kind does not carry are dropped, exactly as [`spec_build`]
    /// states.
    pub fn build_rrmsg(
        cmd: RRMessageCommand,
        id: Option<Vec<u8>>,
        version: String,
        msgid: Option<Vec<u8>>,
        target: Option<String>,
        contents: Option<(MessageFormat, Vec<u8>)>,
    ) -> (r: Option<RRMessage>)
        ensures
            r is Some,
            r->0@ == spec_build(
                cmd,
                opt_bytes_view(id),
                version@,
                opt_bytes_view(msgid),
                opt_str_view(target),
                contents_view(contents),
            ),
            r->0@.wf(),
    {
        let uid: Vec<u8> = match msgid {
            Some(u) => u,
            None => Vec::new(),
        };
        let meta = MsgMetadata { identity: id, version: version, uid: uid, cmd: cmd };
        match cmd {
            RRMessageCommand::READY => Some(RRMessage::READY(meta, target)),
            RRMessageCommand::OKAY => Some(RRMessage::OKAY(meta)),
            RRMessageCommand::DISCONNECT => Some(RRMessage::DISCONNECT(meta)),
            RRMessageCommand::HEARTBEAT => Some(RRMessage::HEARTBEAT(meta)),
            _ => {
                let (format, body) = match contents {
                    Some(c) => c,
                    None => (MessageFormat::NONE, Vec::new()),
                };
                let content = MsgContent { target: target, format: format, content: body };
                match cmd {
                    RRMessageCommand::REQ => Some(RRMessage::REQ(meta, content)),
                    RRMessageCommand::REP => Some(RRMessage::REP(meta, content)),
                    _ => Some(RRMessage::ERROR(meta, content)),
                }
            },
        }
    }

    /// A READY message; `target` is the optional self-advertised identity.
    pub fn create_ready(version: String, msgid: Option<Vec<u8>>, target: Option<String>) -> (r:
        Option<RRMessage>)
        ensures
            r is Some,
            r->0@ == spec_build(
                RRMessageCommand::READY,
                None,
                version@,
                opt_bytes_view(msgid),
                opt_str_view(target),
                None,
            ),
            r->0@.wf(),
    {
        Self::build_rrmsg(RRMessageCommand::READY, None, version, msgid, target, None)
    }

    /// An OKAY message.
    pub fn create_okay(id: Option<Vec<u8>>, version: String, msgid: Option<Vec<u8>>) -> (r: Option<
        RRMessage,
    >)
        ensures
            r is Some,
            r->0@ == spec_build(
                RRMessageCommand::OKAY,
                opt_bytes_view(id),
                version@,
                opt_bytes_view(msgid),
                None,
                None,
            ),
            r->0@.wf(),
    {
        Self::build_rrmsg(RRMessageCommand::OKAY, id, version, msgid, None, None)
    }

    /// A DISCONNECT message.
    pub fn create_disconnect(version: String, msgid: Option<Vec<u8>>) -> (r: Option<RRMessage>)
        ensures
            r is Some,
            r->0@ == spec_build(
                RRMessageCommand::DISCONNECT,
                None,
                version@,
                opt_bytes_view(msgid),
                None,
                None,
            ),
            r->0@.wf(),
    {
        Self::build_rrmsg(RRMessageCommand::DISCONNECT, None, version, msgid, None, None)
    }

    /// A HEARTBEAT message.
    pub fn create_heartbeat(version: String, msgid: Option<Vec<u8>>) -> (r: Option<RRMessage>)
        ensures
            r is Some,
            r->0@ == spec_build(
                RRMessageCommand::HEARTBEAT,
                None,
                version@,
                opt_bytes_view(msgid),
                None,
                None,
            ),
            r->0@.wf(),
    {
        Self::build_rrmsg(RRMessageCommand::HEARTBEAT, None, version, msgid, None, None)
    }

    /// A REQ message carrying `content` encoded as `format`.
    pub fn create_request(
        version: String,
        msgid: Option<Vec<u8>>,
        target: Option<String>,
        format: MessageFormat,
        content: Vec<u8>,
    ) -> (r: Option<RRMessage>)
        ensures
            r is Some,
            r->0@ == spec_build(
                RRMessageCommand::REQ,
                None,
                version@,
                opt_bytes_view(msgid),
                opt_str_view(target),
                Some((format, content@)),
            ),
            r->0@.wf(),
    {
        Self::build_rrmsg(
            RRMessageCommand::REQ,
            None,
            version,
            msgid,
            target,
            Some((format, content)),
        )
    }

    /// A REP message answering a request.
    pub fn create_reply(
        id: Option<Vec<u8>>,
        version: String,
        msgid: Option<Vec<u8>>,
        target: Option<String>,
        format: MessageFormat,
        content: Vec<u8>,
    ) -> (r: Option<RRMessage>)
        ensures
            r is Some,
            r->0@ == spec_build(
                RRMessageCommand::REP,
                opt_bytes_view(id),
                version@,
                opt_bytes_view(msgid),
                opt_str_view(target),
                Some((format, content@)),
            ),
            r->0@.wf(),
    {
        Self::build_rrmsg(RRMessageCommand::REP, id, version, msgid, target, Some((format, content)))
    }

    /// An ERROR message.
    pub fn create_error(
        version: String,
        msgid: Option<Vec<u8>>,
        target: Option<String>,
        format: MessageFormat,
        content: Vec<u8>,
    ) -> (r: Option<RRMessage>)
        ensures
            r is Some,
            r->0@ == spec_build(
                RRMessageCommand::ERROR,
                None,
                version@,
                opt_bytes_view(msgid),
                opt_str_view(target),
                Some((format, content@)),
            ),
            r->0@.wf(),
    {
        Self::build_rrmsg(
            RRMessageCommand::ERROR,
            None,
            version,
            msgid,
            target,
            Some((format, content)),
        )
    }
}

} // verus!
