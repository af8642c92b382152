//! The `/push` interface: notifications and remote-control commands shown or
//! run by the handset.

use vstd::prelude::*;

pub mod digest;
pub mod messages;
pub mod wire;

verus! {

/// How the handset is to read a pushed body.
///
/// The kind decides the `Content-Type` of the authenticated request and
/// nothing else: the bytes on the wire are the same for both kinds. A body
/// such as `Key:Home` sent as [`PushType::HTML`] is merely printed in the
/// handset's browser.
#[derive(Clone, Copy, Debug, PartialEq, Eq, Structural)]
pub enum PushType {
    /// The body pops up in the handset's browser.
    HTML,
    /// The body is run as a command.
    Command,
}

/// The priority at which a notification is shown.
#[derive(Clone, Copy, Debug, PartialEq, Eq, Structural)]
pub enum MessageLevel {
    Critical,
    High,
    Important,
    Normal,
}

/// One message for the handset: made for one delivery and not changed
/// after.
#[derive(Clone, Debug)]
pub struct Notification {
    pub priority: MessageLevel,
    /// How the handset is to read the text. It does not change the wire
    /// document.
    pub body_type: PushType,
    /// The text as the handset is to find it: nothing in it is taken for
    /// an XML reference, and nothing is escaped.
    pub text: String,
}

impl PushType {
    /// The short name of the kind, as typed on a command line.
    pub open spec fn name(self) -> Seq<char> {
        match self {
            PushType::HTML => seq!['h', 't', 'm', 'l'],
            PushType::Command => seq!['c', 'm', 'd'],
        }
    }

    /// The `Content-Type` that makes the handset read a body as this kind.
    pub open spec fn content_type(self) -> Seq<char> {
        match self {
            PushType::HTML => "application/x-www-form-urlencoded"@,
            PushType::Command => "application/x-com-polycom-spipx"@,
        }
    }

    /// The two kinds, in the order in which they are offered.
    pub fn value_variants() -> (kinds: Vec<PushType>)
        ensures
            kinds@ == seq![PushType::HTML, PushType::Command],
    {
        vec![PushType::HTML, PushType::Command]
    }

    /// Returns [`PushType::name`] as a string.
    pub fn to_string(&self) -> (text: String)
        ensures
            text@ == self.name(),
    {
        proof {
            reveal_strlit("html");
            reveal_strlit("cmd");
        }
        let text = match self {
            PushType::HTML => String::from_str("html"),
            PushType::Command => String::from_str("cmd"),
        };
        assert(text@ =~= self.name());
        text
    }

    /// Returns [`PushType::content_type`] as a header value.
    pub fn header_value(self) -> (value: String)
        ensures
            value@ == self.content_type(),
    {
        match self {
            PushType::HTML => String::from_str("application/x-www-form-urlencoded"),
            PushType::Command => String::from_str("application/x-com-polycom-spipx"),
        }
    }
}

impl MessageLevel {
    /// The lower-case spelling of the level, as it stands in the `priority`
    /// attribute and on a command line.
    pub open spec fn name(self) -> Seq<char> {
        match self {
            MessageLevel::Critical => seq!['c', 'r', 'i', 't', 'i', 'c', 'a', 'l'],
            MessageLevel::High => seq!['h', 'i', 'g', 'h'],
            MessageLevel::Important => seq!['i', 'm', 'p', 'o', 'r', 't', 'a', 'n', 't'],
            MessageLevel::Normal => seq!['n', 'o', 'r', 'm', 'a', 'l'],
        }
    }

    /// The four levels, from the most to the least urgent.
    pub fn value_variants() -> (levels: Vec<MessageLevel>)
        ensures
            levels@ == seq![
                MessageLevel::Critical,
                MessageLevel::High,
                MessageLevel::Important,
                MessageLevel::Normal,
            ],
    {
        vec![
            MessageLevel::Critical,
            MessageLevel::High,
            MessageLevel::Important,
            MessageLevel::Normal,
        ]
    }

    /// Returns [`MessageLevel::name`] as a string.
    pub fn to_string(&self) -> (text: String)
        ensures
            text@ == self.name(),
    {
        proof {
            reveal_strlit("critical");
            reveal_strlit("high");
            reveal_strlit("important");
            reveal_strlit("normal");
        }
        let text = match self {
            MessageLevel::Critical => String::from_str("critical"),
            MessageLevel::High => String::from_str("high"),
            MessageLevel::Important => String::from_str("important"),
            MessageLevel::Normal => String::from_str("normal"),
        };
        assert(text@ =~= self.name());
        text
    }
}

/// Every level is spelled in lower-case ASCII letters only.
pub proof fn level_name_is_lower_case(level: MessageLevel)
    ensures
        level.name().len() > 0,
        forall|i: int| 0 <= i < level.name().len() ==> 'a' <= #[trigger] level.name()[i] <= 'z',
{
}

/// Sends notifications and commands to the `/push` endpoint of one
/// handset.
///
/// The endpoint is particular: it asks for Digest authentication, though the
/// management interface of the same handset does not, and it reads a body
/// of its own making. A messenger holds what every delivery to the handset
/// shares and nothing that changes between deliveries. The credentials of
/// the push endpoint are often not those of the management interface.
#[derive(Clone, Debug)]
pub struct PushMessenger {
    pub username: String,
    pub password: String,
    /// The base URL of the handset, without a trailing slash.
    pub url: String,
    /// Whether the carrier is to accept a certificate that it cannot
    /// verify; handsets mostly sign their own.
    pub insecure: bool,
    /// How many seconds each request of a delivery may take; `None` leaves
    /// it to the carrier. A request that takes longer has failed.
    pub timeout: Option<u64>,
}

} // verus!
