//! Conversations, and the files their records are kept in.

use vstd::prelude::*;
use vstd::string::StringExecFns;
use vstd::utf8::encode_utf8;

verus! {

/// Which conversation a record belongs to.
#[derive(Debug, PartialEq, Eq, Hash)]
pub enum Kind {
    /// The conversation with a server itself, by the server's name.
    Server(String),
    /// A channel on a server, by the names of both.
    Channel(String, String),
    /// A private conversation with a user on a server, by the server's name
    /// and the user's nickname.
    Query(String, String),
    /// The client's own log.
    Logs,
    /// The highlights gathered from all conversations.
    Highlights,
}

impl Kind {
    /// The name that stands for the conversation: its identifiers set side
    /// by side, with a word between them that tells a channel from a
    /// nickname.
    pub open spec fn name(self) -> Seq<char> {
        match self {
            Kind::Server(server) => server@ + "-metadata"@,
            Kind::Channel(server, channel) => server@ + "channel"@ + channel@ + "-metadata"@,
            Kind::Query(server, nick) => server@ + "nickname"@ + nick@ + "-metadata"@,
            Kind::Logs => "logs-metadata"@,
            Kind::Highlights => "highlights-metadata"@,
        }
    }

    /// The name that stands for the conversation.
    pub fn composite_name(&self) -> (r: String)
        ensures
            r@ == self.name(),
    {
        match self {
            Kind::Server(server) => {
                let mut name = server.clone();
                name.append("-metadata");
                name
            },
            Kind::Channel(server, channel) => {
                let mut name = server.clone();
                name.append("channel");
                name.append(channel.as_str());
                name.append("-metadata");
                name
            },
            Kind::Query(server, nick) => {
                let mut name = server.clone();
                name.append("nickname");
                name.append(nick.as_str());
                name.append("-metadata");
                name
            },
            Kind::Logs => String::from_str("logs-metadata"),
            Kind::Highlights => String::from_str("highlights-metadata"),
        }
    }
}

impl Clone for Kind {
    fn clone(&self) -> (r: Kind)
        ensures
            r == *self,
    {
        match self {
            Kind::Server(server) => Kind::Server(server.clone()),
            Kind::Channel(server, channel) => Kind::Channel(server.clone(), channel.clone()),
            Kind::Query(server, nick) => Kind::Query(server.clone(), nick.clone()),
            Kind::Logs => Kind::Logs,
            Kind::Highlights => Kind::Highlights,
        }
    }
}

/// The value that `seahash::hash` gives for `bytes`: their 64-bit SeaHash
/// under the seed that the crate has fixed.
pub uninterp spec fn sea_hash(bytes: Seq<u8>) -> u64;

/// Believed of `seahash::hash`: its result depends on the bytes alone, the
/// same in every process and on every machine. Nothing is proved of it.
pub assume_specification[ seahash::hash ](buf: &[u8]) -> (hash: u64)
    ensures
        hash == sea_hash(buf@),
;

/// The character for a single decimal digit.
pub open spec fn digit(value: u64) -> char {
    match value {
        0 => '0',
        1 => '1',
        2 => '2',
        3 => '3',
        4 => '4',
        5 => '5',
        6 => '6',
        7 => '7',
        8 => '8',
        _ => '9',
    }
}

/// A number in decimal, without sign or leading zeros.
pub open spec fn decimal(number: nat) -> Seq<char>
    decreases number,
{
    if number < 10 {
        seq![digit(number as u64)]
    } else {
        decimal(number / 10) + seq![digit((number % 10) as u64)]
    }
}

fn digit_text(value: u64) -> (r: &'static str)
    requires
        value < 10,
    ensures
        r@ == seq![digit(value)],
{
    proof {
        reveal_strlit("0");
        reveal_strlit("1");
        reveal_strlit("2");
        reveal_strlit("3");
        reveal_strlit("4");
        reveal_strlit("5");
        reveal_strlit("6");
        reveal_strlit("7");
        reveal_strlit("8");
        reveal_strlit("9");
    }
    match value {
        0 => "0",
        1 => "1",
        2 => "2",
        3 => "3",
        4 => "4",
        5 => "5",
        6 => "6",
        7 => "7",
        8 => "8",
        _ => "9",
    }
}

/// Writes `number` in decimal at the end of `text`.
pub fn append_decimal(number: u64, text: &mut String)
    ensures
        final(text)@ == old(text)@ + decimal(number as nat),
    decreases number,
{
    if number >= 10 {
        append_decimal(number / 10, text);
    }
    text.append(digit_text(number % 10));
}

/// The name of the file for a conversation whose name hashes to `hash`:
/// the hash in decimal, with the extension `.json`.
pub open spec fn hashed_file_name_of(hash: u64) -> Seq<char> {
    decimal(hash as nat) + ".json"@
}

/// The name of the file that holds the record of `kind`.
///
/// Conversations whose names hash alike share a file.
pub open spec fn file_name_of(kind: Kind) -> Seq<char> {
    hashed_file_name_of(sea_hash(encode_utf8(kind.name())))
}

/// The name of the file for a conversation whose name hashes to `hash`.
pub fn hashed_file_name(hash: u64) -> (r: String)
    ensures
        r@ == hashed_file_name_of(hash),
{
    let mut file = String::new();
    append_decimal(hash, &mut file);
    file.append(".json");
    file
}

/// The name of the file that holds the record of `kind`, within the
/// directory that records are kept in: made of digits and an extension,
/// whatever the conversation's identifiers hold.
pub fn file_name(kind: &Kind) -> (r: String)
    ensures
        r@ == file_name_of(*kind),
{
    let name = kind.composite_name();
    hashed_file_name(seahash::hash(name.as_str().as_bytes()))
}

} // verus!
